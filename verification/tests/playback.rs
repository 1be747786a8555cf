//! Playback-node behaviour through the tree and the update driver:
//! monotonic frame progression, looping with overshoot, reset-on-entry,
//! and the keyframe sequence constructors.

use sprite_animation::anim_data::AnimData;
use sprite_animation::nodes::AnimNode;
use sprite_animation::play_node::{PlayNode, SpriteAnimation, SpriteKeyframe};
use sprite_animation::tree::{AnimTree, AnimTreeUpdateResult};
use sprite_animation::update::anim_tree_update;
use sprite_animation::NO_SPRITE_CHANGE;

const SECOND: i64 = 1_000_000;

fn single_play_tree(sprites: &[usize], is_loop: bool, reset: bool) -> AnimTree {
    let node = PlayNode {
        id: 1,
        speed: 1000,
        anim: SpriteAnimation::new(1, sprites),
        is_loop,
        reset,
    };
    AnimTree::new(AnimNode::PlayNode(node))
}

#[test]
fn frame_monotonic_progression() {
    // A non-looping three-frame animation, one second per frame, ticked
    // one second at a time: keyframe positions advance one at a time,
    // then Finished exactly once, then NoUpdate forever.
    let tree = single_play_tree(&[10, 11, 12], false, false);
    let mut data = AnimData::new(0);
    let mut sprite: usize = 10;

    // Advance to keyframe 1.
    let r = anim_tree_update(&tree, &mut data, &mut sprite, 100).unwrap();
    match r {
        AnimTreeUpdateResult::Update(u) => {
            assert_eq!(u.keyframe_index, 1);
            assert_eq!(u.atlas_index, 11);
            assert_eq!(u.time, SECOND);
        },
        _ => panic!("expected an update"),
    }
    assert_eq!(data.index, 1);
    assert_eq!(sprite, 11);

    // Burn the frame's delay; the sprite must not change.
    let r = anim_tree_update(&tree, &mut data, &mut sprite, SECOND).unwrap();
    match r {
        AnimTreeUpdateResult::Update(u) => {
            assert_eq!(u.atlas_index, NO_SPRITE_CHANGE);
            assert_eq!(u.keyframe_index, 1);
            assert_eq!(u.time, 0);
        },
        _ => panic!("expected a timer-only update"),
    }
    assert_eq!(sprite, 11);

    // Advance to keyframe 2, then burn its delay.
    let r = anim_tree_update(&tree, &mut data, &mut sprite, SECOND).unwrap();
    match r {
        AnimTreeUpdateResult::Update(u) => {
            assert_eq!(u.keyframe_index, 2);
            assert_eq!(u.atlas_index, 12);
        },
        _ => panic!("expected an update"),
    }
    anim_tree_update(&tree, &mut data, &mut sprite, SECOND).unwrap();

    // The sequence is exhausted: Finished exactly once...
    let r = anim_tree_update(&tree, &mut data, &mut sprite, SECOND).unwrap();
    assert_eq!(r, AnimTreeUpdateResult::Finished);
    assert_eq!(data.index, 3);

    // ...then NoUpdate on every further tick.
    for _ in 0..4 {
        let r = anim_tree_update(&tree, &mut data, &mut sprite, SECOND).unwrap();
        assert_eq!(r, AnimTreeUpdateResult::NoUpdate);
        assert_eq!(data.index, 3);
        assert_eq!(sprite, 12);
    }
}

#[test]
fn looping_wraps_with_overshoot() {
    // A looping two-frame animation. A tick longer than a frame's delay
    // leaves a negative countdown; the wrap to frame 0 adds that
    // overshoot into frame 0's delay and skips nothing.
    let tree = single_play_tree(&[10, 11], true, false);
    let mut data = AnimData::new(0);
    let mut sprite: usize = 10;

    // Advance to keyframe 1.
    anim_tree_update(&tree, &mut data, &mut sprite, 100).unwrap();
    assert_eq!(data.index, 1);
    assert_eq!(sprite, 11);

    // Overshoot: 2.5 s against a 1 s delay.
    let r = anim_tree_update(&tree, &mut data, &mut sprite, 2 * SECOND + SECOND / 2).unwrap();
    match r {
        AnimTreeUpdateResult::Update(u) => {
            assert_eq!(u.atlas_index, NO_SPRITE_CHANGE);
            assert_eq!(u.time, SECOND - (2 * SECOND + SECOND / 2));
        },
        _ => panic!("expected a timer-only update"),
    }
    assert_eq!(data.time, -(SECOND + SECOND / 2));

    // Wrap to frame 0: delay is frame 0's delay plus the overshoot.
    let r = anim_tree_update(&tree, &mut data, &mut sprite, SECOND).unwrap();
    match r {
        AnimTreeUpdateResult::Update(u) => {
            assert_eq!(u.keyframe_index, 0);
            assert_eq!(u.atlas_index, 10);
            assert_eq!(u.time, SECOND - (SECOND + SECOND / 2));
        },
        _ => panic!("expected the wrap"),
    }
    assert_eq!(sprite, 10);

    // No frame was skipped: the countdown is still negative, so the next
    // tick advances to keyframe 1, not further.
    let r = anim_tree_update(&tree, &mut data, &mut sprite, SECOND).unwrap();
    match r {
        AnimTreeUpdateResult::Update(u) => {
            assert_eq!(u.keyframe_index, 1);
            assert_eq!(u.atlas_index, 11);
        },
        _ => panic!("expected an update"),
    }
}

#[test]
fn empty_sequence_is_a_no_op() {
    let tree = single_play_tree(&[], false, false);
    let mut data = AnimData::new(0);
    let mut sprite: usize = 7;
    let r = anim_tree_update(&tree, &mut data, &mut sprite, SECOND).unwrap();
    assert_eq!(r, AnimTreeUpdateResult::NoUpdate);
    assert_eq!(sprite, 7);
    assert_eq!(data.index, 0);
}

#[test]
fn reset_on_entry_restarts_at_frame_zero() {
    // The entity's last active node differs from the playback node's id,
    // and the node resets on entry: playback restarts at position 0 and
    // advances to keyframe 1 regardless of the stale stored index.
    let tree = single_play_tree(&[10, 11, 12], false, true);
    let mut data = AnimData::new(0);
    data.index = 2;
    data.current_node = 42;
    let mut sprite: usize = 12;
    let r = anim_tree_update(&tree, &mut data, &mut sprite, 100).unwrap();
    match r {
        AnimTreeUpdateResult::Update(u) => {
            assert_eq!(u.keyframe_index, 1);
            assert_eq!(u.atlas_index, 11);
            assert_eq!(u.current_node, 1);
        },
        _ => panic!("expected an update"),
    }
}

#[test]
fn stale_index_is_reduced_modulo_length() {
    // A stored index far past the sequence (a stale value, as after a
    // sequence edit) is wrapped back into range instead of freezing.
    let tree = single_play_tree(&[10, 11, 12], false, false);
    let mut data = AnimData::new(0);
    data.index = 7; // 7 > 3, 7 % 3 == 1 -> advance to keyframe 2
    let mut sprite: usize = 0;
    let r = anim_tree_update(&tree, &mut data, &mut sprite, 100).unwrap();
    match r {
        AnimTreeUpdateResult::Update(u) => {
            assert_eq!(u.keyframe_index, 2);
            assert_eq!(u.atlas_index, 12);
        },
        _ => panic!("expected an update"),
    }
}

#[test]
fn sequence_constructors() {
    // 12 fps -> 83_333 microseconds per frame, truncated.
    let anim = SpriteAnimation::new(12, &[4, 3, 0]);
    assert_eq!(anim.delay, 1_000_000 / 12);
    assert_eq!(anim.delay, 83_333);
    assert_eq!(anim.len(), 3);
    let kf = anim.get_keyframe(1).unwrap();
    assert_eq!(kf.sprite_index, 3);
    assert_eq!(kf.delay, 83_333);
    assert!(anim.get_keyframe(3).is_none());

    let range = SpriteAnimation::new_range(12, 9, 14);
    assert_eq!(range.len(), 6);
    assert_eq!(range.get_keyframe(0).unwrap().sprite_index, 9);
    assert_eq!(range.get_keyframe(5).unwrap().sprite_index, 14);

    let empty = SpriteAnimation::new_range(12, 5, 4);
    assert_eq!(empty.len(), 0);

    let defaulted = SpriteAnimation::default();
    assert_eq!(defaulted.len(), 0);
    assert_eq!(defaulted.delay, 0);
}

#[test]
fn keyframe_own_delay_overrides_default() {
    let anim = SpriteAnimation {
        keyframes: vec![SpriteKeyframe::new(5), SpriteKeyframe::with_delay(6, 250_000)],
        delay: 100_000,
    };
    assert_eq!(anim.get_keyframe(0).unwrap().delay, 100_000);
    assert_eq!(anim.get_keyframe(1).unwrap().delay, 250_000);
    assert_eq!(anim.get_keyframe(1).unwrap().sprite_index, 6);
}

#[test]
fn play_node_new_draws_a_fresh_id() {
    let a = PlayNode::new(1000, true, false, SpriteAnimation::new(12, &[0]));
    let b = PlayNode::new(1000, true, false, SpriteAnimation::new(12, &[0]));
    assert_ne!(a.id, 0);
    assert_ne!(b.id, 0);
    assert_ne!(a.id, b.id);
    assert!(a.is_loop);
    assert!(!a.reset);
    assert_eq!(a.speed, 1000);
}
