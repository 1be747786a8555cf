//! The animation tree: owns all nodes keyed by id, knows the start node,
//! and implements the evaluation walk from the start node to a terminal
//! answer, threading the logic stack for composite nodes.

use std::collections::HashMap;
use vstd::prelude::*;

use crate::anim_data::AnimData;
use crate::all_node::AllNode;
use crate::match_node::MatchNode;
use crate::play_node::PlayNode;
use crate::nodes::{AnimNode, NodeResult};
use crate::{AnimTreeError, NodeId, MAX_DELTA, MAX_TIME, NIL_NODE};

verus! {

/// The terminal answer of one evaluation pass, when it is a sprite
/// update: what to show, for how long, and which node produced it.
#[derive(Clone, Copy, Debug, PartialEq, Eq, Structural)]
pub struct AnimTreeUpdate {
    /// Countdown to the next frame event, in microseconds.
    pub time: i64,
    /// New keyframe position to store for the entity.
    pub keyframe_index: usize,
    /// Sprite atlas index to display; `NO_SPRITE_CHANGE` keeps the
    /// current sprite.
    pub atlas_index: usize,
    /// The playback node that produced this update.
    pub current_node: NodeId,
}

/// The terminal answer of one evaluation pass.
#[derive(Clone, Copy, Debug, PartialEq, Eq, Structural)]
pub enum AnimTreeUpdateResult {
    /// Apply this sprite/timing update.
    Update(AnimTreeUpdate),
    /// A non-looping animation has just ended.
    Finished,
    /// Nothing changes this tick.
    NoUpdate,
}

/// The animation graph: all nodes keyed by id, plus the node evaluation
/// starts from. Built once at startup, read-only during simulation.
pub struct AnimTree {
    /// Every node of the graph, keyed by its own id.
    pub nodes: HashMap<NodeId, AnimNode>,
    /// Where evaluation starts.
    pub start_node: NodeId,
}

impl AnimTree {
    /// Well-formed: every stored node is well-formed and keyed by its own
    /// id, and the start node resolves.
    pub open spec fn wf(self) -> bool {
        &&& forall|k: NodeId| #[trigger]
            self.nodes@.contains_key(k) ==> self.nodes@[k].wf() && self.nodes@[k].spec_id() == k
        &&& self.nodes@.contains_key(self.start_node)
    }

    /// The evaluation walk, starting at `node_id` with `fuel` redirects
    /// left: the terminal answer and the logic stack it leaves behind.
    ///
    /// A node id that does not resolve fails with `MissingNode`; a walk
    /// that needs more redirects than the tree has nodes can only be
    /// circular and fails with `CycleDetected`. A redirect from a
    /// composite is followed and then the composite's position is pushed
    /// back onto the stack — advanced by one exactly when the child
    /// finished, so the next tick moves to the next child (one tick of
    /// latency per transition, by design).
    pub open spec fn spec_handle(
        self,
        node_id: NodeId,
        data: AnimData,
        delta_time: i64,
        stack: Seq<(NodeId, usize)>,
        fuel: nat,
    ) -> (Result<AnimTreeUpdateResult, AnimTreeError>, Seq<(NodeId, usize)>)
        decreases fuel,
    {
        if !self.nodes@.contains_key(node_id) {
            (Err(AnimTreeError::MissingNode(node_id)), stack)
        } else {
            let step = self.nodes@[node_id].spec_step(data, delta_time, stack);
            let answer = step.0;
            let stack1 = step.1;
            match answer {
                NodeResult::Node(id) => {
                    if fuel == 0 {
                        (Err(AnimTreeError::CycleDetected(id)), stack1)
                    } else {
                        self.spec_handle(id, data, delta_time, stack1, (fuel - 1) as nat)
                    }
                },
                NodeResult::Sprite(delay, keyframe_index, atlas_index, current_node) => (
                    Ok(
                        AnimTreeUpdateResult::Update(
                            AnimTreeUpdate {
                                time: delay,
                                keyframe_index,
                                atlas_index,
                                current_node,
                            },
                        ),
                    ),
                    stack1,
                ),
                NodeResult::LogicNode(id, top) => {
                    if fuel == 0 {
                        (Err(AnimTreeError::CycleDetected(id)), stack1)
                    } else {
                        let inner = self.spec_handle(id, data, delta_time, stack1, (fuel - 1) as nat);
                        let r = inner.0;
                        let stack2 = inner.1;
                        match r {
                            Ok(AnimTreeUpdateResult::Finished) => (
                                r,
                                stack2.push((top.0, (top.1 + 1) as usize)),
                            ),
                            Ok(_) => (r, stack2.push(top)),
                            Err(_) => (r, stack2),
                        }
                    }
                },
                NodeResult::Finished => (Ok(AnimTreeUpdateResult::Finished), stack1),
                NodeResult::NoUpdate => (Ok(AnimTreeUpdateResult::NoUpdate), stack1),
                NodeResult::Failed(e) => (Err(e), stack1),
            }
        }
    }

    /// One full evaluation pass from the start node.
    pub open spec fn spec_update(
        self,
        data: AnimData,
        delta_time: i64,
        stack: Seq<(NodeId, usize)>,
    ) -> (Result<AnimTreeUpdateResult, AnimTreeError>, Seq<(NodeId, usize)>) {
        self.spec_handle(self.start_node, data, delta_time, stack, self.nodes@.len())
    }

    /// Evaluate the tree for one entity and one tick.
    ///
    /// Pure in everything but the logic stack: the answer and the final
    /// stack are exactly `spec_update` of the inputs, so two calls on
    /// identical inputs give identical answers, and the tree itself is
    /// never changed.
    pub fn update(
        &self,
        data: &AnimData,
        delta_time: i64,
        logic_stack: &mut Vec<(NodeId, usize)>,
    ) -> (r: Result<AnimTreeUpdateResult, AnimTreeError>)
        requires
            self.wf(),
            data.wf(),
            0 <= delta_time <= MAX_DELTA,
        ensures
            r == self.spec_update(*data, delta_time, old(logic_stack)@).0,
            final(logic_stack)@ == self.spec_update(*data, delta_time, old(logic_stack)@).1,
    {
        let fuel = self.nodes.len();
        self.handle_update(self.start_node, data, delta_time, logic_stack, fuel)
    }

    /// The evaluation walk; mirrors `spec_handle` exactly.
    fn handle_update(
        &self,
        node_id: NodeId,
        data: &AnimData,
        delta_time: i64,
        logic_stack: &mut Vec<(NodeId, usize)>,
        fuel: usize,
    ) -> (r: Result<AnimTreeUpdateResult, AnimTreeError>)
        requires
            self.wf(),
            data.wf(),
            0 <= delta_time <= MAX_DELTA,
        ensures
            r == self.spec_handle(node_id, *data, delta_time, old(logic_stack)@, fuel as nat).0,
            final(logic_stack)@ == self.spec_handle(
                node_id,
                *data,
                delta_time,
                old(logic_stack)@,
                fuel as nat,
            ).1,
        decreases fuel,
    {
        let node = match self.nodes.get(&node_id) {
            Some(n) => n,
            None => {
                return Err(AnimTreeError::MissingNode(node_id));
            },
        };
        match node.execute(data, delta_time, logic_stack) {
            NodeResult::Node(id) => {
                if fuel == 0 {
                    Err(AnimTreeError::CycleDetected(id))
                } else {
                    self.handle_update(id, data, delta_time, logic_stack, fuel - 1)
                }
            },
            NodeResult::Sprite(delay, keyframe_index, atlas_index, current_node) => Ok(
                AnimTreeUpdateResult::Update(
                    AnimTreeUpdate { time: delay, keyframe_index, atlas_index, current_node },
                ),
            ),
            NodeResult::LogicNode(id, top) => {
                if fuel == 0 {
                    Err(AnimTreeError::CycleDetected(id))
                } else {
                    let result = self.handle_update(id, data, delta_time, logic_stack, fuel - 1);
                    match result {
                        Ok(AnimTreeUpdateResult::Finished) => {
                            logic_stack.push((top.0, top.1 + 1));
                            Ok(AnimTreeUpdateResult::Finished)
                        },
                        Ok(other) => {
                            logic_stack.push(top);
                            Ok(other)
                        },
                        Err(e) => Err(e),
                    }
                }
            },
            NodeResult::Finished => Ok(AnimTreeUpdateResult::Finished),
            NodeResult::NoUpdate => Ok(AnimTreeUpdateResult::NoUpdate),
            NodeResult::Failed(e) => Err(e),
        }
    }

    /// The node stored under `id`, if any. A miss during evaluation is a
    /// fatal authoring bug; this lookup lets a host check ids up front.
    pub fn get_node(&self, id: NodeId) -> (r: Option<&AnimNode>)
        ensures
            match r {
                Some(n) => self.nodes@.contains_key(id) && *n == self.nodes@[id],
                None => !self.nodes@.contains_key(id),
            },
    {
        self.nodes.get(&id)
    }

    /// A tree holding just `start_node`, which becomes the start node.
    /// A nil node id is replaced by a freshly drawn random one.
    pub fn new(start_node: AnimNode) -> (r: AnimTree)
        requires
            start_node.wf(),
        ensures
            r.start_node != NIL_NODE,
            r.nodes@ == Map::<NodeId, AnimNode>::empty().insert(
                r.start_node,
                start_node.with_id(r.start_node),
            ),
            start_node.spec_id() != NIL_NODE ==> r.start_node == start_node.spec_id(),
            r.wf(),
    {
        let mut node = start_node;
        let id0 = node.get_id();
        let id = if id0 == NIL_NODE {
            node.set_default_id()
        } else {
            id0
        };
        assert(node.with_id(id) == node);
        let mut nodes: HashMap<NodeId, AnimNode> = HashMap::new();
        nodes.insert(id, node);
        AnimTree { nodes, start_node: id }
    }

    /// Add a node under its own id; a nil id is replaced by a freshly
    /// drawn random one first. Fails with `DuplicateId`, leaving the tree
    /// unchanged, exactly when the id is already present; a node carrying
    /// a fresh explicit id is always accepted.
    pub fn insert_node(&mut self, node: AnimNode) -> (r: Result<NodeId, AnimTreeError>)
        requires
            old(self).wf(),
            node.wf(),
        ensures
            final(self).start_node == old(self).start_node,
            final(self).wf(),
            match r {
                Ok(id) => {
                    &&& id != NIL_NODE
                    &&& !old(self).nodes@.contains_key(id)
                    &&& final(self).nodes@ == old(self).nodes@.insert(id, node.with_id(id))
                    &&& node.spec_id() != NIL_NODE ==> id == node.spec_id()
                },
                Err(e) => {
                    &&& final(self).nodes@ == old(self).nodes@
                    &&& exists|k: NodeId| #![auto]
                        e == AnimTreeError::DuplicateId(k) && old(self).nodes@.contains_key(k)
                    &&& node.spec_id() != NIL_NODE ==> e == AnimTreeError::DuplicateId(
                        node.spec_id(),
                    )
                },
            },
            node.spec_id() != NIL_NODE && !old(self).nodes@.contains_key(node.spec_id())
                ==> r is Ok,
    {
        let mut node = node;
        let id0 = node.get_id();
        let id = if id0 == NIL_NODE {
            node.set_default_id()
        } else {
            id0
        };
        if self.nodes.contains_key(&id) {
            Err(AnimTreeError::DuplicateId(id))
        } else {
            assert(node.with_id(id) == node);
            self.nodes.insert(id, node);
            Ok(id)
        }
    }

    /// Any sprite update the evaluation walk can produce keeps its
    /// countdown within `[-MAX_TIME, MAX_TIME]`, so feeding an answer
    /// back into the entity state stays within `AnimData::wf`.
    pub proof fn lemma_handle_time_bounds(
        self,
        node_id: NodeId,
        data: AnimData,
        delta_time: i64,
        stack: Seq<(NodeId, usize)>,
        fuel: nat,
    )
        requires
            self.wf(),
            data.wf(),
            0 <= delta_time <= MAX_DELTA,
        ensures
            self.spec_handle(node_id, data, delta_time, stack, fuel).0 matches Ok(
                AnimTreeUpdateResult::Update(u),
            ) ==> -MAX_TIME <= u.time <= MAX_TIME,
        decreases fuel,
    {
        if self.nodes@.contains_key(node_id) {
            let node = self.nodes@[node_id];
            let step = node.spec_step(data, delta_time, stack);
            match node {
                AnimNode::PlayNode(p) => {
                    crate::play_node::lemma_play_step_time_bounds(p, data, delta_time);
                },
                AnimNode::MatchNode(_) => {
                    if fuel > 0 {
                        if let NodeResult::Node(id) = step.0 {
                            self.lemma_handle_time_bounds(
                                id,
                                data,
                                delta_time,
                                step.1,
                                (fuel - 1) as nat,
                            );
                        }
                    }
                },
                AnimNode::AllNode(_) => {
                    if fuel > 0 {
                        if let NodeResult::LogicNode(id, _) = step.0 {
                            self.lemma_handle_time_bounds(
                                id,
                                data,
                                delta_time,
                                step.1,
                                (fuel - 1) as nat,
                            );
                        }
                    }
                },
            }
        }
    }

    /// Law (composite sequencing): one walk through a composite node
    /// behaves as follows. The composite's saved position is the top of
    /// the stack (0 on an empty stack). While the position is in range
    /// the walk enters exactly the child at that position; the position
    /// is pushed back advanced by one exactly when that child finished,
    /// so the next tick plays the next child. A position past the last
    /// child freezes a non-looping composite on its last child — it never
    /// fails — and makes a looping one clear the stack and start over at
    /// its first child.
    pub proof fn lemma_composite_step(
        self,
        aid: NodeId,
        a: AllNode,
        data: AnimData,
        delta_time: i64,
        stack: Seq<(NodeId, usize)>,
        fuel: nat,
    )
        requires
            self.wf(),
            self.nodes@.contains_key(aid),
            self.nodes@[aid] == AnimNode::AllNode(a),
            1 <= a.nodes@.len(),
            1 <= fuel,
            stack.len() >= 1 ==> stack.last().0 == aid,
        ensures
            ({
                let i = if stack.len() == 0 {
                    0int
                } else {
                    stack.last().1 as int
                };
                let len = a.nodes@.len() as int;
                let pos = if i < len {
                    i
                } else if a.is_loop {
                    0int
                } else {
                    len - 1
                };
                let stack2 = if i >= len && a.is_loop {
                    Seq::<(NodeId, usize)>::empty()
                } else if stack.len() == 0 {
                    stack
                } else {
                    stack.drop_last()
                };
                let inner = self.spec_handle(
                    a.nodes@[pos],
                    data,
                    delta_time,
                    stack2,
                    (fuel - 1) as nat,
                );
                let outer = self.spec_handle(aid, data, delta_time, stack, fuel);
                &&& outer.0 == inner.0
                &&& outer.1 == match inner.0 {
                    Ok(AnimTreeUpdateResult::Finished) => inner.1.push(
                        (aid, (pos + 1) as usize),
                    ),
                    Ok(_) => inner.1.push((aid, pos as usize)),
                    Err(_) => inner.1,
                }
            }),
    {
    }

    /// Evaluation of a tree whose start node is a playback node is
    /// exactly that node's playback step, with the stack unchanged; a
    /// playback node is a terminal leaf, so the walk neither redirects
    /// nor fails. Together with the playback laws this carries frame
    /// progression and looping through whole evaluations.
    pub proof fn lemma_play_start(
        self,
        p: PlayNode,
        data: AnimData,
        delta_time: i64,
        stack: Seq<(NodeId, usize)>,
    )
        requires
            self.wf(),
            self.nodes@[self.start_node] == AnimNode::PlayNode(p),
        ensures
            ({
                let outer = self.spec_update(data, delta_time, stack);
                &&& outer.1 == stack
                &&& match crate::play_node::spec_play_step(p, data, delta_time) {
                    NodeResult::Sprite(delay, keyframe_index, atlas_index, current_node) => outer.0
                        == Ok::<AnimTreeUpdateResult, AnimTreeError>(
                        AnimTreeUpdateResult::Update(
                            AnimTreeUpdate {
                                time: delay,
                                keyframe_index,
                                atlas_index,
                                current_node,
                            },
                        ),
                    ),
                    NodeResult::Finished => outer.0 == Ok::<AnimTreeUpdateResult, AnimTreeError>(
                        AnimTreeUpdateResult::Finished,
                    ),
                    NodeResult::NoUpdate => outer.0 == Ok::<AnimTreeUpdateResult, AnimTreeError>(
                        AnimTreeUpdateResult::NoUpdate,
                    ),
                    _ => false,
                }
            }),
    {
    }

    /// Law (dispatch routing): evaluation of a tree whose start node is
    /// a match node continues exactly at the mapped target for the
    /// entity's state; at the fallback when the state is unmapped and a
    /// fallback is set; and halts with `Finished` — not an error — when
    /// the state is unmapped and there is no fallback.
    pub proof fn lemma_match_start(
        self,
        m: MatchNode,
        data: AnimData,
        delta_time: i64,
        stack: Seq<(NodeId, usize)>,
    )
        requires
            self.wf(),
            self.nodes@[self.start_node] == AnimNode::MatchNode(m),
            1 <= self.nodes@.len(),
        ensures
            ({
                let outer = self.spec_update(data, delta_time, stack);
                let fuel = (self.nodes@.len() - 1) as nat;
                &&& m.pair@.contains_key(data.state) ==> outer == self.spec_handle(
                    m.pair@[data.state],
                    data,
                    delta_time,
                    stack,
                    fuel,
                )
                &&& !m.pair@.contains_key(data.state) && m.default != NIL_NODE ==> outer
                    == self.spec_handle(m.default, data, delta_time, stack, fuel)
                &&& !m.pair@.contains_key(data.state) && m.default == NIL_NODE ==> outer == (
                Ok::<AnimTreeUpdateResult, AnimTreeError>(AnimTreeUpdateResult::Finished),
                stack,
                )
            }),
    {
    }

    /// Law (composite looping): a looping composite whose saved position
    /// has run past its last child clears the stack and re-enters its
    /// first child, restarting the sequence.
    pub proof fn lemma_composite_loop_restarts(
        self,
        aid: NodeId,
        a: AllNode,
        data: AnimData,
        delta_time: i64,
        stack: Seq<(NodeId, usize)>,
        fuel: nat,
    )
        requires
            self.wf(),
            self.nodes@.contains_key(aid),
            self.nodes@[aid] == AnimNode::AllNode(a),
            a.is_loop,
            1 <= a.nodes@.len(),
            1 <= fuel,
            stack.len() >= 1,
            stack.last().0 == aid,
            stack.last().1 >= a.nodes@.len(),
        ensures
            ({
                let inner = self.spec_handle(
                    a.nodes@[0],
                    data,
                    delta_time,
                    Seq::<(NodeId, usize)>::empty(),
                    (fuel - 1) as nat,
                );
                let outer = self.spec_handle(aid, data, delta_time, stack, fuel);
                &&& outer.0 == inner.0
                &&& outer.1 == match inner.0 {
                    Ok(AnimTreeUpdateResult::Finished) => inner.1.push((aid, 1usize)),
                    Ok(_) => inner.1.push((aid, 0usize)),
                    Err(_) => inner.1,
                }
            }),
    {
        self.lemma_composite_step(aid, a, data, delta_time, stack, fuel);
    }

    /// Make `id` the start node. Fails with `UnknownId`, leaving the tree
    /// unchanged, exactly when no node has that id.
    pub fn set_start_node(&mut self, id: NodeId) -> (r: Result<(), AnimTreeError>)
        requires
            old(self).wf(),
        ensures
            final(self).nodes@ == old(self).nodes@,
            r is Ok <==> old(self).nodes@.contains_key(id),
            r is Ok ==> final(self).start_node == id && final(self).wf(),
            r is Err ==> *final(self) == *old(self) && r == Err::<(), AnimTreeError>(
                AnimTreeError::UnknownId(id),
            ),
    {
        if self.nodes.contains_key(&id) {
            self.start_node = id;
            Ok(())
        } else {
            Err(AnimTreeError::UnknownId(id))
        }
    }
}

} // verus!
