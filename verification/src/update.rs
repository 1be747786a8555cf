//! The per-entity update driver: one tick of the host loop, applying the
//! tree's answer onto the entity state and the displayed sprite.

use vstd::prelude::*;

use crate::anim_data::{spec_sat_add, AnimData};
use crate::tree::{AnimTree, AnimTreeUpdateResult};
use crate::{AnimTreeError, NodeId, MAX_DELTA, NO_SPRITE_CHANGE};

verus! {

/// A fresh copy of a logic stack. Evaluation works on a scratch copy so
/// a failed pass leaves the entity untouched.
fn clone_stack(v: &Vec<(NodeId, usize)>) -> (r: Vec<(NodeId, usize)>)
    ensures
        r@ == v@,
{
    let mut r: Vec<(NodeId, usize)> = Vec::new();
    let mut i: usize = 0;
    while i < v.len()
        invariant
            i <= v@.len(),
            r@ == v@.subrange(0, i as int),
        decreases v@.len() - i,
    {
        r.push(v[i]);
        i = i + 1;
        proof {
            assert(r@ =~= v@.subrange(0, i as int));
        }
    }
    proof {
        assert(v@.subrange(0, v@.len() as int) =~= v@);
    }
    r
}

/// One tick of the update driver for a single entity.
///
/// Evaluates the tree against the entity's current state, then applies
/// the answer: a sprite update overwrites the entity's countdown,
/// keyframe position and active node, and — unless the sprite sentinel
/// was returned — the displayed sprite; `Finished` bumps the stored
/// position by one as the "already finished" mark; `NoUpdate` changes
/// no playback state. On every success the held-state clock advances and
/// the logic stack left by evaluation is stored back. All-or-nothing: on
/// an error (a malformed graph, which the host should treat as fatal)
/// the entity state and the sprite are exactly as before.
pub fn anim_tree_update(
    tree: &AnimTree,
    data: &mut AnimData,
    sprite_index: &mut usize,
    delta_time: i64,
) -> (r: Result<AnimTreeUpdateResult, AnimTreeError>)
    requires
        tree.wf(),
        old(data).wf(),
        0 <= delta_time <= MAX_DELTA,
        old(data).index < usize::MAX,
    ensures
        r == tree.spec_update(*old(data), delta_time, old(data).logic_stack@).0,
        r is Err ==> *final(data) == *old(data) && *final(sprite_index) == *old(sprite_index),
        r is Ok ==> {
            &&& final(data).logic_stack@ == tree.spec_update(
                *old(data),
                delta_time,
                old(data).logic_stack@,
            ).1
            &&& final(data).state == old(data).state
            &&& final(data).state_time == spec_sat_add(old(data).state_time, delta_time)
            &&& final(data).wf()
        },
        r matches Ok(AnimTreeUpdateResult::Update(u)) ==> {
            &&& final(data).time == u.time
            &&& final(data).index == u.keyframe_index
            &&& final(data).current_node == u.current_node
            &&& *final(sprite_index) == if u.atlas_index == NO_SPRITE_CHANGE {
                *old(sprite_index)
            } else {
                u.atlas_index
            }
        },
        r == Ok::<AnimTreeUpdateResult, AnimTreeError>(AnimTreeUpdateResult::Finished) ==> {
            &&& final(data).index == old(data).index + 1
            &&& final(data).time == old(data).time
            &&& final(data).current_node == old(data).current_node
            &&& *final(sprite_index) == *old(sprite_index)
        },
        r == Ok::<AnimTreeUpdateResult, AnimTreeError>(AnimTreeUpdateResult::NoUpdate) ==> {
            &&& final(data).time == old(data).time
            &&& final(data).index == old(data).index
            &&& final(data).current_node == old(data).current_node
            &&& *final(sprite_index) == *old(sprite_index)
        },
{
    let mut stack = clone_stack(&data.logic_stack);
    let result = tree.update(data, delta_time, &mut stack);
    match result {
        Ok(value) => {
            proof {
                tree.lemma_handle_time_bounds(
                    tree.start_node,
                    *data,
                    delta_time,
                    old(data).logic_stack@,
                    tree.nodes@.len(),
                );
            }
            data.add_state_time(delta_time);
            data.logic_stack = stack;
            match value {
                AnimTreeUpdateResult::Update(u) => {
                    data.index = u.keyframe_index;
                    data.time = u.time;
                    data.current_node = u.current_node;
                    if u.atlas_index != NO_SPRITE_CHANGE {
                        *sprite_index = u.atlas_index;
                    }
                },
                AnimTreeUpdateResult::Finished => {
                    data.index = data.index + 1;
                },
                AnimTreeUpdateResult::NoUpdate => {},
            }
            Ok(value)
        },
        Err(e) => Err(e),
    }
}

} // verus!
