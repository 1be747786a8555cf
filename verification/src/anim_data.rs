//! Per-entity animation state: playback position, timing accumulator,
//! the externally requested state value, and the logic stack that gives
//! composite nodes memory across ticks.

use vstd::prelude::*;

use crate::{NodeId, MAX_TIME, NIL_NODE};

verus! {

/// The saturating sum used for the held-state clock.
pub open spec fn spec_sat_add(a: i64, b: i64) -> i64 {
    if a + b <= i64::MAX {
        (a + b) as i64
    } else {
        i64::MAX
    }
}

/// State the host keeps per animated entity. The tree itself is shared and
/// read-only; everything that changes tick to tick lives here.
pub struct AnimData {
    /// Countdown, in microseconds, until the current keyframe has been
    /// shown long enough. At or below zero the next tick advances a frame.
    pub time: i64,
    /// Keyframe position inside the active playback node. One past the
    /// end of the sequence marks a finished non-looping animation.
    pub index: usize,
    /// Id of the node that produced the last sprite update; lets a
    /// playback node notice it was just entered.
    pub current_node: NodeId,
    /// Saved positions of composite nodes, used like a call stack: each
    /// entry is (composite node id, child position).
    pub logic_stack: Vec<(NodeId, usize)>,
    /// The externally requested state value (for example a token for
    /// idle / walking / jumping), consumed by match nodes. Prefer
    /// `set_state`, which also maintains `state_time`.
    pub state: u64,
    /// Microseconds since `state` last changed.
    pub state_time: i64,
}

impl AnimData {
    /// Bounds under which evaluation arithmetic cannot overflow.
    pub open spec fn wf(self) -> bool {
        &&& -MAX_TIME <= self.time <= MAX_TIME
        &&& 0 <= self.state_time
    }

    /// Fresh state for a newly spawned entity: frame zero, no time
    /// accumulated, no active node, empty stack, the given state.
    pub fn new(state: u64) -> (r: AnimData)
        ensures
            r.time == 0,
            r.index == 0,
            r.current_node == NIL_NODE,
            r.logic_stack@ == Seq::<(NodeId, usize)>::empty(),
            r.state == state,
            r.state_time == 0,
            r.wf(),
    {
        AnimData {
            time: 0,
            index: 0,
            current_node: NIL_NODE,
            logic_stack: Vec::new(),
            state,
            state_time: 0,
        }
    }

    pub fn get_state(&self) -> (r: u64)
        ensures
            r == self.state,
    {
        self.state
    }

    pub fn get_state_time(&self) -> (r: i64)
        ensures
            r == self.state_time,
    {
        self.state_time
    }

    /// Replace the requested state. The held-state clock is kept when the
    /// state is unchanged and restarts at zero otherwise.
    pub fn set_state(&mut self, state: u64)
        ensures
            final(self).state == state,
            final(self).state_time == if old(self).state == state {
                old(self).state_time
            } else {
                0
            },
            final(self).time == old(self).time,
            final(self).index == old(self).index,
            final(self).current_node == old(self).current_node,
            final(self).logic_stack@ == old(self).logic_stack@,
    {
        if self.state != state {
            self.state_time = 0;
        }
        self.state = state;
    }

    /// Advance the held-state clock, saturating at `i64::MAX`.
    pub fn add_state_time(&mut self, delta_time: i64)
        requires
            0 <= delta_time,
            0 <= old(self).state_time,
        ensures
            final(self).state_time == spec_sat_add(old(self).state_time, delta_time),
            final(self).state == old(self).state,
            final(self).time == old(self).time,
            final(self).index == old(self).index,
            final(self).current_node == old(self).current_node,
            final(self).logic_stack@ == old(self).logic_stack@,
    {
        if self.state_time <= i64::MAX - delta_time {
            self.state_time = self.state_time + delta_time;
        } else {
            self.state_time = i64::MAX;
        }
    }
}

impl Default for AnimData {
    /// Same as `AnimData::new(0)`.
    fn default() -> (r: AnimData)
        ensures
            r.time == 0,
            r.index == 0,
            r.current_node == NIL_NODE,
            r.logic_stack@ == Seq::<(NodeId, usize)>::empty(),
            r.state == 0,
            r.state_time == 0,
            r.wf(),
    {
        AnimData::new(0)
    }
}

} // verus!
