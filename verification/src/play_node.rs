//! Playback nodes: deterministic single-track stepping through a keyframe
//! sequence, with optional speed scaling, looping and reset-on-entry.

use vstd::prelude::*;

use crate::anim_data::AnimData;
use crate::ids::new_uuid;
use crate::nodes::NodeResult;
use crate::{NodeId, MAX_DELAY, MAX_DELTA, MAX_SPEED, MAX_TIME, NIL_NODE, NO_SPRITE_CHANGE};

verus! {

/// One entry of a keyframe sequence: a sprite atlas index plus an optional
/// display duration. A keyframe without its own duration uses the
/// sequence-level default.
pub struct SpriteKeyframe {
    pub sprite_index: usize,
    /// Display duration in microseconds; `None` means the sequence default.
    pub delay: Option<i64>,
}

impl SpriteKeyframe {
    pub open spec fn wf(self) -> bool {
        match self.delay {
            Some(d) => 0 <= d <= MAX_DELAY,
            None => true,
        }
    }

    /// A keyframe that uses the sequence-level default duration.
    pub fn new(index: usize) -> (r: SpriteKeyframe)
        ensures
            r.sprite_index == index,
            r.delay is None,
            r.wf(),
    {
        SpriteKeyframe { sprite_index: index, delay: None }
    }

    /// A keyframe with its own display duration.
    pub fn with_delay(index: usize, delay: i64) -> (r: SpriteKeyframe)
        requires
            0 <= delay <= MAX_DELAY,
        ensures
            r.sprite_index == index,
            r.delay == Some(delay),
            r.wf(),
    {
        SpriteKeyframe { sprite_index: index, delay: Some(delay) }
    }
}

/// A keyframe with its duration already resolved against the sequence
/// default.
pub struct AnimKeyframe {
    pub sprite_index: usize,
    pub delay: i64,
}

/// An immutable keyframe sequence plus the default per-frame duration.
/// An empty sequence makes the owning playback node a no-op.
pub struct SpriteAnimation {
    pub keyframes: Vec<SpriteKeyframe>,
    /// Default display duration, in microseconds, for keyframes without
    /// their own.
    pub delay: i64,
}

impl SpriteAnimation {
    pub open spec fn wf(self) -> bool {
        &&& 0 <= self.delay <= MAX_DELAY
        &&& self.keyframes@.len() < usize::MAX
        &&& forall|i: int|
            0 <= i < self.keyframes@.len() ==> (#[trigger] self.keyframes@[i]).wf()
    }

    pub open spec fn spec_len(self) -> nat {
        self.keyframes@.len()
    }

    /// The sprite atlas index shown by keyframe `i`.
    pub open spec fn spec_sprite(self, i: int) -> usize {
        self.keyframes@[i].sprite_index
    }

    /// The resolved display duration of keyframe `i`.
    pub open spec fn spec_delay(self, i: int) -> i64 {
        match self.keyframes@[i].delay {
            Some(d) => d,
            None => self.delay,
        }
    }

    /// Keyframes over the given sprite indices, all shown at `1/fps`
    /// seconds each.
    pub fn new(fps: usize, indexes: &[usize]) -> (r: SpriteAnimation)
        requires
            1 <= fps,
            indexes@.len() < usize::MAX,
        ensures
            r.delay == 1_000_000int / fps as int,
            r.spec_len() == indexes@.len(),
            forall|i: int|
                0 <= i < indexes@.len() ==> r.spec_sprite(i) == indexes@[i]
                    && r.spec_delay(i) == r.delay,
            r.wf(),
    {
        let mut keyframes: Vec<SpriteKeyframe> = Vec::new();
        let mut i: usize = 0;
        while i < indexes.len()
            invariant
                i <= indexes@.len(),
                keyframes@.len() == i,
                forall|j: int|
                    0 <= j < i ==> (#[trigger] keyframes@[j]).sprite_index == indexes@[j]
                        && keyframes@[j].delay is None,
            decreases indexes@.len() - i,
        {
            keyframes.push(SpriteKeyframe::new(indexes[i]));
            i = i + 1;
        }
        let delay = (1_000_000u64 / (fps as u64)) as i64;
        SpriteAnimation { keyframes, delay }
    }

    /// Keyframes over the contiguous sprite range `start..=end`, all shown
    /// at `1/fps` seconds each. An empty range gives an empty sequence.
    pub fn new_range(fps: usize, start: usize, end: usize) -> (r: SpriteAnimation)
        requires
            1 <= fps,
            end < usize::MAX,
            (end as int - start as int) < usize::MAX - 1,
        ensures
            r.delay == 1_000_000int / fps as int,
            start <= end ==> r.spec_len() == end - start + 1,
            start > end ==> r.spec_len() == 0,
            forall|i: int|
                0 <= i < r.spec_len() ==> r.spec_sprite(i) == start + i
                    && r.spec_delay(i) == r.delay,
            r.wf(),
    {
        let mut keyframes: Vec<SpriteKeyframe> = Vec::new();
        let mut i: usize = start;
        while i <= end
            invariant
                start <= i,
                i <= end + 1 || i == start,
                keyframes@.len() == i - start,
                end < usize::MAX,
                forall|j: int|
                    0 <= j < keyframes@.len() ==> (#[trigger] keyframes@[j]).sprite_index
                        == start + j && keyframes@[j].delay is None,
            decreases end + 1 - i,
        {
            keyframes.push(SpriteKeyframe::new(i));
            i = i + 1;
        }
        let delay = (1_000_000u64 / (fps as u64)) as i64;
        SpriteAnimation { keyframes, delay }
    }

    pub fn len(&self) -> (r: usize)
        ensures
            r == self.spec_len(),
    {
        self.keyframes.len()
    }

    /// The keyframe at `index`, with its duration resolved against the
    /// default; `None` past the end of the sequence.
    pub fn get_keyframe(&self, index: usize) -> (r: Option<AnimKeyframe>)
        ensures
            match r {
                Some(kf) => index < self.spec_len() && kf.sprite_index == self.spec_sprite(
                    index as int,
                ) && kf.delay == self.spec_delay(index as int),
                None => index >= self.spec_len(),
            },
    {
        if index < self.keyframes.len() {
            let kf = &self.keyframes[index];
            let delay = match kf.delay {
                Some(d) => d,
                None => self.delay,
            };
            Some(AnimKeyframe { sprite_index: kf.sprite_index, delay })
        } else {
            None
        }
    }
}

impl Default for SpriteAnimation {
    /// An empty sequence with a zero default duration.
    fn default() -> (r: SpriteAnimation)
        ensures
            r.spec_len() == 0,
            r.delay == 0,
            r.wf(),
    {
        SpriteAnimation { keyframes: Vec::new(), delay: 0 }
    }
}

/// A leaf node that steps through a keyframe sequence.
pub struct PlayNode {
    pub id: NodeId,
    /// Playback speed in per-mille: 1000 plays at nominal speed.
    pub speed: u32,
    pub anim: SpriteAnimation,
    /// Wrap back to keyframe 0 after the last keyframe.
    pub is_loop: bool,
    /// Restart at keyframe 0 when the entity's last active node was a
    /// different node.
    pub reset: bool,
}

/// What one step of a playback node produces.
///
/// The effective keyframe position is 0 when `reset` applies; otherwise it
/// is the entity's stored position, where one past the end of the sequence
/// is kept as the finished mark and anything beyond that (a stale index
/// from an edited sequence) is reduced modulo the length.
///
/// With time left on the current keyframe, only the countdown moves (by
/// `delta_time` scaled by `speed`) and the sprite is left alone. Once the
/// countdown reaches zero the node advances one position: to the next
/// keyframe if there is one, else around to keyframe 0 when looping;
/// a non-looping node reports `Finished` when the sequence has just been
/// exhausted and `NoUpdate` on every step after that. A new keyframe's
/// countdown is its duration plus the (non-positive) overshoot, so timing
/// stays accurate across ticks.
pub open spec fn spec_play_step(p: PlayNode, data: AnimData, delta_time: i64) -> NodeResult {
    let len = p.anim.spec_len() as int;
    if len == 0 {
        NodeResult::NoUpdate
    } else {
        let index: int = if p.reset && data.current_node != p.id {
            0
        } else if data.index > len {
            data.index as int % len
        } else {
            data.index as int
        };
        if data.time <= 0 {
            let next = index + 1;
            if next < len {
                NodeResult::Sprite(
                    (p.anim.spec_delay(next) + data.time) as i64,
                    next as usize,
                    p.anim.spec_sprite(next),
                    p.id,
                )
            } else if p.is_loop {
                NodeResult::Sprite(
                    (p.anim.spec_delay(0) + data.time) as i64,
                    0,
                    p.anim.spec_sprite(0),
                    p.id,
                )
            } else if next == len {
                NodeResult::Finished
            } else {
                NodeResult::NoUpdate
            }
        } else {
            NodeResult::Sprite(
                (data.time - delta_time * p.speed / 1000) as i64,
                index as usize,
                NO_SPRITE_CHANGE,
                p.id,
            )
        }
    }
}

impl PlayNode {
    pub open spec fn wf(self) -> bool {
        &&& self.anim.wf()
        &&& self.speed <= MAX_SPEED
    }

    /// A playback node with a freshly drawn random id.
    pub fn new(speed: u32, is_loop: bool, reset: bool, anim: SpriteAnimation) -> (r: PlayNode)
        requires
            speed <= MAX_SPEED,
            anim.wf(),
        ensures
            r.speed == speed,
            r.is_loop == is_loop,
            r.reset == reset,
            r.anim == anim,
            r.id != NIL_NODE,
            r.wf(),
    {
        PlayNode { id: new_uuid(), speed, anim, is_loop, reset }
    }

    /// One playback step; a leaf node, so it never redirects and never
    /// fails. Returns exactly `spec_play_step(self, data, delta_time)`.
    pub fn execute(&self, data: &AnimData, delta_time: i64) -> (r: NodeResult)
        requires
            self.wf(),
            data.wf(),
            0 <= delta_time <= MAX_DELTA,
        ensures
            r == spec_play_step(*self, *data, delta_time),
    {
        let len = self.anim.len();
        if len == 0 {
            return NodeResult::NoUpdate;
        }
        let index: usize = if self.reset && data.current_node != self.id {
            0
        } else if data.index > len {
            data.index % len
        } else {
            data.index
        };
        if data.time <= 0 {
            let next = index + 1;
            match self.anim.get_keyframe(next) {
                Some(kf) => NodeResult::Sprite(
                    kf.delay + data.time,
                    next,
                    kf.sprite_index,
                    self.id,
                ),
                None => {
                    if self.is_loop {
                        match self.anim.get_keyframe(0) {
                            Some(kf) => NodeResult::Sprite(
                                kf.delay + data.time,
                                0,
                                kf.sprite_index,
                                self.id,
                            ),
                            None => vstd::pervasive::unreached(),
                        }
                    } else if next == len {
                        NodeResult::Finished
                    } else {
                        NodeResult::NoUpdate
                    }
                },
            }
        } else {
            assert(delta_time * self.speed <= MAX_DELTA * MAX_SPEED) by (nonlinear_arith)
                requires
                    0 <= delta_time <= MAX_DELTA,
                    0 <= self.speed <= MAX_SPEED,
            ;
            let dec = ((delta_time as u64) * (self.speed as u64) / 1000) as i64;
            NodeResult::Sprite(data.time - dec, index, NO_SPRITE_CHANGE, self.id)
        }
    }
}

/// Any sprite answer of a playback step keeps its countdown within
/// `[-MAX_TIME, MAX_TIME]`, so a host feeding the answer back into the
/// entity state stays within `AnimData::wf`.
pub proof fn lemma_play_step_time_bounds(p: PlayNode, data: AnimData, delta_time: i64)
    requires
        p.wf(),
        data.wf(),
        0 <= delta_time <= MAX_DELTA,
    ensures
        spec_play_step(p, data, delta_time) matches NodeResult::Sprite(d, _, _, _)
            ==> -MAX_TIME <= d <= MAX_TIME,
{
    let len = p.anim.spec_len() as int;
    if len > 0 {
        if data.time <= 0 {
            let index: int = if p.reset && data.current_node != p.id {
                0
            } else if data.index > len {
                data.index as int % len
            } else {
                data.index as int
            };
            let next = index + 1;
            if next < len {
                assert(p.anim.keyframes@[next].wf());
            } else {
                assert(p.anim.keyframes@[0].wf());
            }
        } else {
            let dec = delta_time * p.speed / 1000;
            assert(0 <= delta_time * p.speed <= MAX_DELTA * MAX_SPEED) by (nonlinear_arith)
                requires
                    0 <= delta_time <= MAX_DELTA,
                    0 <= p.speed <= MAX_SPEED,
            ;
            vstd::arithmetic::div_mod::lemma_div_is_ordered(
                delta_time * p.speed,
                MAX_DELTA * MAX_SPEED,
                1000,
            );
            vstd::arithmetic::div_mod::lemma_div_pos_is_pos(delta_time * p.speed, 1000);
        }
    }
}

/// Law: through a non-looping playback node that is not being re-entered,
/// the stored keyframe position advances one at a time: a step taken with
/// the countdown expired shows position `index + 1` while more keyframes
/// remain, reports `Finished` on the step that runs off the end, and
/// reports `NoUpdate` on every step taken from the finished mark.
pub proof fn lemma_play_progression(p: PlayNode, data: AnimData, delta_time: i64)
    requires
        p.wf(),
        data.wf(),
        !p.is_loop,
        1 <= p.anim.spec_len(),
        data.index <= p.anim.spec_len(),
        data.time <= 0,
        !(p.reset && data.current_node != p.id),
    ensures
        data.index + 1 < p.anim.spec_len() ==> spec_play_step(p, data, delta_time)
            == NodeResult::Sprite(
            (p.anim.spec_delay(data.index + 1) + data.time) as i64,
            (data.index + 1) as usize,
            p.anim.spec_sprite(data.index + 1),
            p.id,
        ),
        data.index + 1 == p.anim.spec_len() ==> spec_play_step(p, data, delta_time)
            == NodeResult::Finished,
        data.index == p.anim.spec_len() ==> spec_play_step(p, data, delta_time)
            == NodeResult::NoUpdate,
{
}

/// Law: a step that advances a frame (countdown expired) does not depend
/// on `delta_time`; in particular no frame is ever skipped because of a
/// large tick.
pub proof fn lemma_play_advance_ignores_delta(
    p: PlayNode,
    data: AnimData,
    d1: i64,
    d2: i64,
)
    requires
        data.time <= 0,
    ensures
        spec_play_step(p, data, d1) == spec_play_step(p, data, d2),
{
}

/// Law: a looping playback node about to run past its last keyframe wraps
/// to keyframe 0, and the overshoot (the non-positive countdown) is added
/// to keyframe 0's duration, preserving long-run timing.
pub proof fn lemma_play_loop_wraps(p: PlayNode, data: AnimData, delta_time: i64)
    requires
        p.wf(),
        data.wf(),
        p.is_loop,
        1 <= p.anim.spec_len(),
        data.index <= p.anim.spec_len(),
        data.index + 1 >= p.anim.spec_len(),
        data.time <= 0,
        !(p.reset && data.current_node != p.id),
    ensures
        spec_play_step(p, data, delta_time) == NodeResult::Sprite(
            (p.anim.spec_delay(0) + data.time) as i64,
            0,
            p.anim.spec_sprite(0),
            p.id,
        ),
{
}

} // verus!
