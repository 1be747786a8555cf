//! Match nodes: route evaluation to a child node chosen by an externally
//! supplied state value, with an optional fallback target.

use std::collections::HashMap;
use vstd::prelude::*;

use crate::anim_data::AnimData;
use crate::ids::new_uuid;
use crate::nodes::NodeResult;
use crate::{NodeId, NIL_NODE};

verus! {

/// A dispatch node: looks the requested state up in `pair` and redirects
/// there; falls back to `default` when that is set (non-nil). An unmapped
/// state without a fallback halts animation (`Finished`) — deliberately
/// not an error.
pub struct MatchNode {
    pub id: NodeId,
    /// Maps a requested-state value to the node to play for it.
    pub pair: HashMap<u64, NodeId>,
    /// Fallback target for unmapped states; `NIL_NODE` means none.
    pub default: NodeId,
}

impl MatchNode {
    /// What one step of a match node produces: the mapped target, else the
    /// fallback when one is set, else `Finished`.
    pub open spec fn spec_step(self, state: u64) -> NodeResult {
        if self.pair@.contains_key(state) {
            NodeResult::Node(self.pair@[state])
        } else if self.default != NIL_NODE {
            NodeResult::Node(self.default)
        } else {
            NodeResult::Finished
        }
    }

    /// An empty match node with a freshly drawn random id and no fallback.
    pub fn new() -> (r: MatchNode)
        ensures
            r.id != NIL_NODE,
            r.pair@ == Map::<u64, NodeId>::empty(),
            r.default == NIL_NODE,
    {
        MatchNode { id: new_uuid(), pair: HashMap::new(), default: NIL_NODE }
    }

    /// The mapped target for `state`, if any (the fallback is not consulted).
    pub fn get_next(&self, state: u64) -> (r: Option<NodeId>)
        ensures
            r == if self.pair@.contains_key(state) {
                Some(self.pair@[state])
            } else {
                None::<NodeId>
            },
    {
        match self.pair.get(&state) {
            Some(id) => Some(*id),
            None => None,
        }
    }

    /// Map `state` to `target`, replacing any earlier mapping for `state`.
    pub fn insert(&mut self, state: u64, target: NodeId)
        ensures
            final(self).pair@ == old(self).pair@.insert(state, target),
            final(self).id == old(self).id,
            final(self).default == old(self).default,
    {
        self.pair.insert(state, target);
    }

    /// One dispatch step; carries no time-based behaviour. Returns exactly
    /// `self.spec_step(data.state)`.
    pub fn execute(&self, data: &AnimData) -> (r: NodeResult)
        ensures
            r == self.spec_step(data.state),
    {
        match self.pair.get(&data.state) {
            Some(id) => NodeResult::Node(*id),
            None => {
                if self.default != NIL_NODE {
                    NodeResult::Node(self.default)
                } else {
                    NodeResult::Finished
                }
            },
        }
    }
}

} // verus!
