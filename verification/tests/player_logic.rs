//! The player's animation-state decision logic and its animation tree.

use sprite_animation::anim_data::AnimData;
use sprite_animation::nodes::AnimNode;
use sprite_animation::player::{
    build_anim_tree, idle_drift, movement_state, next_state_for_event, update_animation,
    PlayerAnimState, PlayerEvent, HURT_TIME, IDLE_TIME, PLAYER_DISPATCH_NODE, PLAYER_FLOAT_NODE,
    PLAYER_JUMP_ANIM_NODE, PLAYER_JUMP_NODE, PLAYER_STAND_NODE, PLAYER_WALK_NODE,
};
use sprite_animation::tree::AnimTreeUpdateResult;
use sprite_animation::update::anim_tree_update;

#[test]
fn events_map_to_states() {
    let s = PlayerAnimState::Standing;
    assert_eq!(next_state_for_event(s, 0, PlayerEvent::Airborne), PlayerAnimState::MidAir);
    assert_eq!(next_state_for_event(s, 0, PlayerEvent::Jumped), PlayerAnimState::Jumping);
    assert_eq!(next_state_for_event(s, 0, PlayerEvent::Grounded), PlayerAnimState::Landing);
    assert_eq!(next_state_for_event(s, 0, PlayerEvent::Moving), PlayerAnimState::Walking);
    assert_eq!(next_state_for_event(s, 0, PlayerEvent::Standing), PlayerAnimState::Standing);
    // Events that do not drive animation leave the state alone.
    assert_eq!(next_state_for_event(s, 0, PlayerEvent::ShotWeb), s);
    assert_eq!(next_state_for_event(s, 0, PlayerEvent::Died), s);
    assert_eq!(next_state_for_event(s, 0, PlayerEvent::Collided), s);
}

#[test]
fn hurt_blocks_events_until_timeout() {
    let hurt = PlayerAnimState::Hurt;
    assert_eq!(next_state_for_event(hurt, HURT_TIME - 1, PlayerEvent::Jumped), hurt);
    assert_eq!(
        next_state_for_event(hurt, HURT_TIME, PlayerEvent::Jumped),
        PlayerAnimState::Jumping
    );
}

#[test]
fn transition_filters() {
    // Standing does not interrupt Idle.
    assert_eq!(
        next_state_for_event(PlayerAnimState::Idle, 0, PlayerEvent::Standing),
        PlayerAnimState::Idle
    );
    // MidAir does not interrupt Jumping.
    assert_eq!(
        next_state_for_event(PlayerAnimState::Jumping, 0, PlayerEvent::Airborne),
        PlayerAnimState::Jumping
    );
    // Walking interrupts neither the air states nor Hurt.
    assert_eq!(
        next_state_for_event(PlayerAnimState::MidAir, 0, PlayerEvent::Moving),
        PlayerAnimState::MidAir
    );
    assert_eq!(
        next_state_for_event(PlayerAnimState::Jumping, 0, PlayerEvent::Moving),
        PlayerAnimState::Jumping
    );
    assert_eq!(
        next_state_for_event(PlayerAnimState::Hurt, HURT_TIME, PlayerEvent::Moving),
        PlayerAnimState::Hurt
    );
    // But it does interrupt standing still.
    assert_eq!(
        next_state_for_event(PlayerAnimState::Standing, 0, PlayerEvent::Moving),
        PlayerAnimState::Walking
    );
}

#[test]
fn idle_drift_after_idle_time() {
    assert_eq!(
        idle_drift(PlayerAnimState::Standing, IDLE_TIME - 1),
        PlayerAnimState::Standing
    );
    assert_eq!(idle_drift(PlayerAnimState::Standing, IDLE_TIME), PlayerAnimState::Idle);
    assert_eq!(idle_drift(PlayerAnimState::Landing, IDLE_TIME), PlayerAnimState::Idle);
    assert_eq!(idle_drift(PlayerAnimState::Walking, IDLE_TIME), PlayerAnimState::Walking);
}

#[test]
fn movement_override() {
    assert_eq!(
        movement_state(PlayerAnimState::Standing, true),
        PlayerAnimState::Walking
    );
    assert_eq!(movement_state(PlayerAnimState::Idle, true), PlayerAnimState::Walking);
    assert_eq!(movement_state(PlayerAnimState::MidAir, true), PlayerAnimState::MidAir);
    assert_eq!(movement_state(PlayerAnimState::Jumping, true), PlayerAnimState::Jumping);
    assert_eq!(movement_state(PlayerAnimState::Hurt, true), PlayerAnimState::Hurt);
    assert_eq!(
        movement_state(PlayerAnimState::Standing, false),
        PlayerAnimState::Standing
    );
}

#[test]
fn update_animation_folds_a_tick() {
    // Standing player, a jump event, no movement input: the state
    // becomes Jumping with the held clock restarted.
    let mut data = AnimData::new(PlayerAnimState::Standing.state_id());
    data.state_time = 40_000;
    let events = vec![PlayerEvent::Jumped];
    update_animation(&mut data, &events, false);
    assert_eq!(data.state, PlayerAnimState::Jumping.state_id());
    assert_eq!(data.state_time, 0);

    // No events, still standing long enough: the idle drift fires and
    // restarts the clock.
    let mut data = AnimData::new(PlayerAnimState::Standing.state_id());
    data.state_time = IDLE_TIME;
    update_animation(&mut data, &Vec::new(), false);
    assert_eq!(data.state, PlayerAnimState::Idle.state_id());
    assert_eq!(data.state_time, 0);

    // The movement override runs after the events.
    let mut data = AnimData::new(PlayerAnimState::Idle.state_id());
    update_animation(&mut data, &vec![PlayerEvent::Standing], true);
    assert_eq!(data.state, PlayerAnimState::Walking.state_id());
}

#[test]
fn state_id_round_trip() {
    let all = [
        PlayerAnimState::Standing,
        PlayerAnimState::Idle,
        PlayerAnimState::Walking,
        PlayerAnimState::MidAir,
        PlayerAnimState::Jumping,
        PlayerAnimState::Landing,
        PlayerAnimState::Hurt,
        PlayerAnimState::NoChange,
    ];
    for s in all {
        assert_eq!(PlayerAnimState::from_state_id(s.state_id()), Some(s));
    }
    assert_eq!(PlayerAnimState::from_state_id(99), None);
    assert_eq!(PlayerAnimState::default(), PlayerAnimState::Standing);
}

#[test]
fn state_names() {
    assert_eq!(PlayerAnimState::Idle.to_string(), "PlayerState::Idle");
    assert_eq!(PlayerAnimState::NoChange.to_string(), "PlayerAnimState::None");
}

#[test]
fn player_tree_routes_walking() {
    // Walking routes to the walk cycle (sprites 9..=14 at 12 fps): the
    // first tick advances to keyframe 1, sprite 10, with the exact
    // 1_000_000 / 12 microsecond delay.
    let tree = build_anim_tree();
    assert_eq!(tree.start_node, PLAYER_DISPATCH_NODE);
    let mut data = AnimData::new(PlayerAnimState::Walking.state_id());
    let mut sprite: usize = 9;
    let r = anim_tree_update(&tree, &mut data, &mut sprite, 10_000).unwrap();
    match r {
        AnimTreeUpdateResult::Update(u) => {
            assert_eq!(u.current_node, PLAYER_WALK_NODE);
            assert_eq!(u.atlas_index, 10);
            assert_eq!(u.keyframe_index, 1);
            assert_eq!(u.time, 83_333);
        },
        _ => panic!("expected the walk cycle to play"),
    }
}

#[test]
fn player_tree_jump_is_two_phase() {
    // Jumping enters the jump composite: the single-frame jump pose
    // finishes immediately (advancing the composite), and the next tick
    // plays the float animation.
    let tree = build_anim_tree();
    let mut data = AnimData::new(PlayerAnimState::Jumping.state_id());
    let mut sprite: usize = 0;

    let r = anim_tree_update(&tree, &mut data, &mut sprite, 10_000).unwrap();
    assert_eq!(r, AnimTreeUpdateResult::Finished);
    assert_eq!(data.logic_stack, vec![(PLAYER_JUMP_NODE, 1)]);

    let r = anim_tree_update(&tree, &mut data, &mut sprite, 10_000).unwrap();
    match r {
        AnimTreeUpdateResult::Update(u) => {
            assert_eq!(u.current_node, PLAYER_FLOAT_NODE);
            assert_eq!(u.atlas_index, 22); // float frames are 21, 22, 23, 22
        },
        _ => panic!("expected the float phase"),
    }
}

#[test]
fn player_tree_unmapped_state_halts() {
    // Hurt has no mapping and the dispatch has no fallback: animation
    // simply halts.
    let tree = build_anim_tree();
    let mut data = AnimData::new(PlayerAnimState::Hurt.state_id());
    let mut sprite: usize = 0;
    let r = anim_tree_update(&tree, &mut data, &mut sprite, 10_000).unwrap();
    assert_eq!(r, AnimTreeUpdateResult::Finished);
}

#[test]
fn player_tree_nodes_are_present() {
    let tree = build_anim_tree();
    assert!(tree.get_node(PLAYER_JUMP_ANIM_NODE).is_some());
    assert!(tree.get_node(PLAYER_STAND_NODE).is_some());
    match tree.get_node(PLAYER_JUMP_NODE) {
        Some(AnimNode::AllNode(a)) => {
            assert_eq!(a.nodes, vec![PLAYER_JUMP_ANIM_NODE, PLAYER_FLOAT_NODE]);
            assert!(!a.is_loop);
        },
        _ => panic!("the jump node must be a composite"),
    }
}
