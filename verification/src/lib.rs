//! A sprite-animation tree: a small interpreter that walks a directed graph
//! of animation nodes to decide, each tick, which sprite frame to display
//! and which node to transition to.
//!
//! The graph has three node kinds: a playback node that steps through a
//! keyframe sequence, a match node that routes by an externally supplied
//! state value, and a composite node that sequences a list of children
//! through an explicit logic stack. A host simulation loop owns the
//! per-entity state and calls the tree once per tick.
//!
//! All times are integer microseconds; playback speed is a per-mille
//! multiplier (1000 = nominal speed).

use vstd::prelude::*;

pub mod all_node;
pub mod anim_data;
pub mod any_node;
pub mod bool_utils;
pub mod chaining;
pub mod display;
pub mod ids;
pub mod match_node;
pub mod nodes;
pub mod play_node;
pub mod player;
pub mod tilemap;
pub mod tree;
pub mod update;

verus! {

/// Identifier of a node in an animation tree. Conceptually a random
/// 128-bit token; `NIL_NODE` (zero) marks "no node" / "not yet assigned".
pub type NodeId = u128;

/// The reserved "no node" identifier.
pub const NIL_NODE: NodeId = 0;

/// Largest keyframe delay a well-formed animation may carry, in
/// microseconds (about twelve days). Keeps all timing arithmetic inside
/// `i64` without surprising the caller.
pub const MAX_DELAY: i64 = 0x100_0000_0000;

/// Bound on the magnitude of a per-entity time accumulator. Evaluation
/// keeps accumulators within `[-MAX_TIME, MAX_TIME]`.
pub const MAX_TIME: i64 = 2 * MAX_DELAY;

/// Largest tick duration accepted by evaluation, in microseconds
/// (about eighteen minutes).
pub const MAX_DELTA: i64 = 0x4000_0000;

/// Largest playback-speed multiplier, in per-mille (about 1048x).
pub const MAX_SPEED: u32 = 0x10_0000;

/// Sprite-index sentinel telling the host to leave the displayed sprite
/// unchanged this tick (only the timer moved).
pub const NO_SPRITE_CHANGE: usize = usize::MAX;

/// Everything that can go wrong while building or evaluating a tree.
///
/// `MissingNode`, `MissingChild` and `CycleDetected` indicate a malformed
/// graph: an authoring bug, not a runtime condition to recover from. A
/// host should treat them as fatal and abort.
#[derive(Clone, Copy, Debug, PartialEq, Eq, Structural)]
pub enum AnimTreeError {
    /// Evaluation reached a node id that is not in the tree.
    MissingNode(NodeId),
    /// A composite node has no child at the given position.
    MissingChild(NodeId, usize),
    /// Evaluation followed more redirects than the tree has nodes.
    CycleDetected(NodeId),
    /// `insert_node` was given an id that is already present.
    DuplicateId(NodeId),
    /// `set_start_node` was given an id that is not in the tree.
    UnknownId(NodeId),
    /// A placeholder node was evaluated.
    Unspecified,
}

impl AnimTreeError {
    /// True for the graph-integrity errors a host must not recover from.
    pub fn is_fatal(&self) -> (r: bool)
        ensures
            r == self.spec_is_fatal(),
    {
        match self {
            AnimTreeError::MissingNode(_) => true,
            AnimTreeError::MissingChild(_, _) => true,
            AnimTreeError::CycleDetected(_) => true,
            AnimTreeError::DuplicateId(_) => false,
            AnimTreeError::UnknownId(_) => false,
            AnimTreeError::Unspecified => false,
        }
    }

    /// Which errors are graph-integrity violations.
    pub open spec fn spec_is_fatal(self) -> bool {
        match self {
            AnimTreeError::MissingNode(_) => true,
            AnimTreeError::MissingChild(_, _) => true,
            AnimTreeError::CycleDetected(_) => true,
            _ => false,
        }
    }
}

} // verus!
