//! The node kinds of an animation tree and the result one step of a node
//! can produce.

use vstd::prelude::*;

use crate::all_node::AllNode;
use crate::anim_data::AnimData;
use crate::ids::new_uuid;
use crate::match_node::MatchNode;
use crate::play_node::{spec_play_step, PlayNode};
use crate::{AnimTreeError, NodeId, MAX_DELTA, NIL_NODE};

verus! {

/// What a single node decided during one evaluation step.
#[derive(Clone, Copy, Debug, PartialEq, Eq)]
pub enum NodeResult {
    /// Show a sprite: (remaining delay in microseconds, keyframe index,
    /// sprite atlas index — `NO_SPRITE_CHANGE` to keep the current sprite —
    /// and the id of the node that produced it).
    Sprite(i64, usize, usize, NodeId),
    /// Non-terminal redirect: re-enter evaluation at the given node.
    Node(NodeId),
    /// Redirect into a composite child: (child node id, the stack entry to
    /// push back once the child has answered).
    LogicNode(NodeId, (NodeId, usize)),
    /// A non-looping animation has just shown its last keyframe.
    Finished,
    /// Nothing to change this tick.
    NoUpdate,
    /// Evaluation failed.
    Failed(AnimTreeError),
}

/// One unit of the animation graph: a closed sum over the three node
/// kinds, stepped by one evaluation function per variant.
pub enum AnimNode {
    PlayNode(PlayNode),
    MatchNode(MatchNode),
    AllNode(AllNode),
}

impl AnimNode {
    pub open spec fn wf(self) -> bool {
        match self {
            AnimNode::PlayNode(n) => n.wf(),
            AnimNode::MatchNode(_) => true,
            AnimNode::AllNode(_) => true,
        }
    }

    pub open spec fn spec_id(self) -> NodeId {
        match self {
            AnimNode::PlayNode(n) => n.id,
            AnimNode::MatchNode(n) => n.id,
            AnimNode::AllNode(n) => n.id,
        }
    }

    /// The same node with its id replaced.
    pub open spec fn with_id(self, id: NodeId) -> AnimNode {
        match self {
            AnimNode::PlayNode(n) => AnimNode::PlayNode(PlayNode { id, ..n }),
            AnimNode::MatchNode(n) => AnimNode::MatchNode(MatchNode { id, ..n }),
            AnimNode::AllNode(n) => AnimNode::AllNode(AllNode { id, ..n }),
        }
    }

    /// One step of whichever kind this node is: what it answers and what
    /// it leaves on the logic stack. Only a composite touches the stack.
    pub open spec fn spec_step(
        self,
        data: AnimData,
        delta_time: i64,
        stack: Seq<(NodeId, usize)>,
    ) -> (NodeResult, Seq<(NodeId, usize)>) {
        match self {
            AnimNode::PlayNode(n) => (spec_play_step(n, data, delta_time), stack),
            AnimNode::MatchNode(n) => (n.spec_step(data.state), stack),
            AnimNode::AllNode(n) => n.spec_step(stack),
        }
    }

    pub fn get_id(&self) -> (r: NodeId)
        ensures
            r == self.spec_id(),
    {
        match self {
            AnimNode::PlayNode(n) => n.id,
            AnimNode::MatchNode(n) => n.id,
            AnimNode::AllNode(n) => n.id,
        }
    }

    /// Replace this node's id with a freshly drawn random one; returns
    /// the new id, which is never nil.
    pub fn set_default_id(&mut self) -> (r: NodeId)
        ensures
            r != NIL_NODE,
            *final(self) == old(self).with_id(r),
    {
        let id = new_uuid();
        match self {
            AnimNode::PlayNode(n) => n.id = id,
            AnimNode::MatchNode(n) => n.id = id,
            AnimNode::AllNode(n) => n.id = id,
        }
        id
    }

    /// Step this node. Returns exactly the answer of `spec_step` and
    /// leaves the stack as that spec says.
    pub fn execute(
        &self,
        data: &AnimData,
        delta_time: i64,
        logic_stack: &mut Vec<(NodeId, usize)>,
    ) -> (r: NodeResult)
        requires
            self.wf(),
            data.wf(),
            0 <= delta_time <= MAX_DELTA,
        ensures
            r == self.spec_step(*data, delta_time, old(logic_stack)@).0,
            final(logic_stack)@ == self.spec_step(*data, delta_time, old(logic_stack)@).1,
            r matches NodeResult::LogicNode(child, top) ==> top.1 < usize::MAX,
    {
        match self {
            AnimNode::PlayNode(n) => n.execute(data, delta_time),
            AnimNode::MatchNode(n) => n.execute(data),
            AnimNode::AllNode(n) => n.execute(logic_stack),
        }
    }
}

} // verus!
