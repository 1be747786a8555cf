//! Composite nodes: play an ordered list of children one after another,
//! optionally looping the whole list. Their memory across ticks lives in
//! the caller-owned logic stack.

use vstd::prelude::*;

use crate::ids::new_uuid;
use crate::nodes::NodeResult;
use crate::{AnimTreeError, NodeId, NIL_NODE};

verus! {

/// A composite node: "play these children in sequence". Each step it
/// reads its saved position off the top of the logic stack and redirects
/// into the child at that position; the tree evaluator pushes the
/// position back (advanced by one when the child finished).
pub struct AllNode {
    pub id: NodeId,
    /// The children, in playback order.
    pub nodes: Vec<NodeId>,
    /// Restart at the first child after the last one finishes; otherwise
    /// freeze on the last child.
    pub is_loop: bool,
}

impl AllNode {
    /// What one step of a composite node does to the logic stack, and the
    /// redirect it emits.
    ///
    /// The saved position is the popped top of the stack, or (self, 0) on
    /// an empty stack. A top that belongs to another node is stale: the
    /// whole stack is cleared and the node starts at child 0. A position
    /// past the last child restarts at child 0 (clearing the stack) when
    /// looping, else freezes on the last child. The step then redirects
    /// into the child at the chosen position; only a childless node can
    /// fail here.
    pub open spec fn spec_step(self, stack: Seq<(NodeId, usize)>) -> (NodeResult, Seq<
        (NodeId, usize),
    >) {
        let top = if stack.len() == 0 {
            (self.id, 0usize)
        } else {
            stack.last()
        };
        let rest = if stack.len() == 0 {
            stack
        } else {
            stack.drop_last()
        };
        let len = self.nodes@.len() as int;
        let pick = if top.0 != self.id {
            ((self.id, 0usize), Seq::<(NodeId, usize)>::empty())
        } else if top.1 >= len {
            if self.is_loop {
                ((self.id, 0usize), Seq::<(NodeId, usize)>::empty())
            } else if len == 0 {
                (top, rest)
            } else {
                ((self.id, (len - 1) as usize), rest)
            }
        } else {
            (top, rest)
        };
        let entry = pick.0;
        let stack2 = pick.1;
        if entry.1 < len {
            (NodeResult::LogicNode(self.nodes@[entry.1 as int], entry), stack2)
        } else {
            (NodeResult::Failed(AnimTreeError::MissingChild(self.id, entry.1)), stack2)
        }
    }

    /// A childless, non-looping composite with a freshly drawn random id.
    pub fn new() -> (r: AllNode)
        ensures
            r.id != NIL_NODE,
            r.nodes@ == Seq::<NodeId>::empty(),
            !r.is_loop,
    {
        AllNode { id: new_uuid(), nodes: Vec::new(), is_loop: false }
    }

    pub fn get_id(&self) -> (r: NodeId)
        ensures
            r == self.id,
    {
        self.id
    }

    /// One composite step. Returns exactly the redirect of
    /// `self.spec_step` and leaves the stack as that spec says.
    pub fn execute(&self, logic_stack: &mut Vec<(NodeId, usize)>) -> (r: NodeResult)
        ensures
            r == self.spec_step(old(logic_stack)@).0,
            final(logic_stack)@ == self.spec_step(old(logic_stack)@).1,
            r matches NodeResult::LogicNode(child, entry) ==> entry.1 < self.nodes@.len()
                && entry.1 < usize::MAX && child == self.nodes@[entry.1 as int] && entry.0
                == self.id,
    {
        let top: (NodeId, usize) = match logic_stack.pop() {
            Some(t) => t,
            None => (self.id, 0),
        };
        let len = self.nodes.len();
        let entry: (NodeId, usize);
        if top.0 != self.id {
            logic_stack.clear();
            entry = (self.id, 0);
        } else if top.1 >= len {
            if self.is_loop {
                logic_stack.clear();
                entry = (self.id, 0);
            } else if len == 0 {
                entry = top;
            } else {
                entry = (self.id, len - 1);
            }
        } else {
            entry = top;
        }
        if entry.1 < len {
            NodeResult::LogicNode(self.nodes[entry.1], entry)
        } else {
            NodeResult::Failed(AnimTreeError::MissingChild(self.id, entry.1))
        }
    }
}

} // verus!
