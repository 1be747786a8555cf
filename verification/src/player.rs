//! The player's animation: its states, the per-tick state decision logic
//! driven by gameplay events, and the player's animation tree.

use vstd::prelude::*;

use crate::all_node::AllNode;
use crate::anim_data::AnimData;
use crate::match_node::MatchNode;
use crate::nodes::AnimNode;
use crate::play_node::{PlayNode, SpriteAnimation};
use crate::tree::AnimTree;
use crate::{NodeId, NIL_NODE};

verus! {

/// Frames per second of the player's sprite sheets.
pub const FPS: usize = 12;

/// How long standing or landing is held, in microseconds, before the
/// player drifts to idle.
pub const IDLE_TIME: i64 = 1_500_000;

/// How long the hurt state blocks other transitions, in microseconds.
pub const HURT_TIME: i64 = 500_000;

/// The player's animation states. `NoChange` is the marker "leave the
/// state alone", used by events that do not drive animation.
#[derive(Clone, Copy, Debug, PartialEq, Eq, Structural)]
pub enum PlayerAnimState {
    Standing,
    Idle,
    Walking,
    MidAir,
    Jumping,
    Landing,
    Hurt,
    NoChange,
}

/// The gameplay events that drive the player's animation.
#[derive(Clone, Copy, Debug, PartialEq, Eq, Structural)]
pub enum PlayerEvent {
    Airborne,
    Jumped,
    Grounded,
    Died,
    Moving,
    Standing,
    ShotWeb,
    Collided,
}

/// The dispatch token of a player state, as stored in `AnimData` and
/// consumed by match nodes.
pub open spec fn spec_state_id(state: PlayerAnimState) -> u64 {
    match state {
        PlayerAnimState::Standing => 0,
        PlayerAnimState::Idle => 1,
        PlayerAnimState::Walking => 2,
        PlayerAnimState::MidAir => 3,
        PlayerAnimState::Jumping => 4,
        PlayerAnimState::Landing => 5,
        PlayerAnimState::Hurt => 6,
        PlayerAnimState::NoChange => 7,
    }
}

/// The state a dispatch token stands for.
pub open spec fn spec_state_of_id(id: u64) -> Option<PlayerAnimState> {
    if id == 0 {
        Some(PlayerAnimState::Standing)
    } else if id == 1 {
        Some(PlayerAnimState::Idle)
    } else if id == 2 {
        Some(PlayerAnimState::Walking)
    } else if id == 3 {
        Some(PlayerAnimState::MidAir)
    } else if id == 4 {
        Some(PlayerAnimState::Jumping)
    } else if id == 5 {
        Some(PlayerAnimState::Landing)
    } else if id == 6 {
        Some(PlayerAnimState::Hurt)
    } else if id == 7 {
        Some(PlayerAnimState::NoChange)
    } else {
        None
    }
}

impl PlayerAnimState {
    /// This state's dispatch token.
    pub fn state_id(self) -> (r: u64)
        ensures
            r == spec_state_id(self),
    {
        match self {
            PlayerAnimState::Standing => 0,
            PlayerAnimState::Idle => 1,
            PlayerAnimState::Walking => 2,
            PlayerAnimState::MidAir => 3,
            PlayerAnimState::Jumping => 4,
            PlayerAnimState::Landing => 5,
            PlayerAnimState::Hurt => 6,
            PlayerAnimState::NoChange => 7,
        }
    }

    /// The state a dispatch token stands for, if it is one.
    pub fn from_state_id(id: u64) -> (r: Option<PlayerAnimState>)
        ensures
            r == spec_state_of_id(id),
    {
        if id == 0 {
            Some(PlayerAnimState::Standing)
        } else if id == 1 {
            Some(PlayerAnimState::Idle)
        } else if id == 2 {
            Some(PlayerAnimState::Walking)
        } else if id == 3 {
            Some(PlayerAnimState::MidAir)
        } else if id == 4 {
            Some(PlayerAnimState::Jumping)
        } else if id == 5 {
            Some(PlayerAnimState::Landing)
        } else if id == 6 {
            Some(PlayerAnimState::Hurt)
        } else if id == 7 {
            Some(PlayerAnimState::NoChange)
        } else {
            None
        }
    }

    /// A display name for logs and menus.
    pub fn to_string(&self) -> (r: String)
        ensures
            self == PlayerAnimState::Idle ==> r@ == "PlayerState::Idle"@,
            self == PlayerAnimState::Walking ==> r@ == "PlayerState::Walking"@,
    {
        match self {
            PlayerAnimState::Idle => "PlayerState::Idle".to_string(),
            PlayerAnimState::Walking => "PlayerState::Walking".to_string(),
            PlayerAnimState::MidAir => "PlayerState::MidAir".to_string(),
            PlayerAnimState::Landing => "PlayerAnimState::Landing".to_string(),
            PlayerAnimState::Jumping => "PlayerAnimState::Jumping".to_string(),
            PlayerAnimState::Hurt => "PlayerAnimState::Hurt".to_string(),
            PlayerAnimState::Standing => "PlayerAnimState::Standing".to_string(),
            PlayerAnimState::NoChange => "PlayerAnimState::None".to_string(),
        }
    }
}

impl Default for PlayerAnimState {
    /// The player spawns standing.
    fn default() -> (r: PlayerAnimState)
        ensures
            r == PlayerAnimState::Standing,
    {
        PlayerAnimState::Standing
    }
}

/// The candidate animation state a gameplay event asks for. Events that
/// do not drive animation ask for `NoChange`.
pub open spec fn spec_event_state(event: PlayerEvent) -> PlayerAnimState {
    match event {
        PlayerEvent::Airborne => PlayerAnimState::MidAir,
        PlayerEvent::Jumped => PlayerAnimState::Jumping,
        PlayerEvent::Grounded => PlayerAnimState::Landing,
        PlayerEvent::Moving => PlayerAnimState::Walking,
        PlayerEvent::Standing => PlayerAnimState::Standing,
        PlayerEvent::ShotWeb => PlayerAnimState::NoChange,
        PlayerEvent::Died => PlayerAnimState::NoChange,
        PlayerEvent::Collided => PlayerAnimState::NoChange,
    }
}

/// The state after one gameplay event.
///
/// A hurt player held under `HURT_TIME` ignores events. Otherwise the
/// event's candidate applies, filtered: `NoChange` keeps the state;
/// `Standing` does not interrupt `Idle`; `MidAir` does not interrupt
/// `Jumping`; `Walking` interrupts neither the air states nor `Hurt`.
pub open spec fn spec_next_state(
    current: PlayerAnimState,
    state_time: i64,
    event: PlayerEvent,
) -> PlayerAnimState {
    let candidate = spec_event_state(event);
    if current == PlayerAnimState::Hurt && state_time < HURT_TIME {
        current
    } else {
        match candidate {
            PlayerAnimState::NoChange => current,
            PlayerAnimState::Standing => if current == PlayerAnimState::Idle {
                current
            } else {
                candidate
            },
            PlayerAnimState::MidAir => if current == PlayerAnimState::Jumping {
                current
            } else {
                candidate
            },
            PlayerAnimState::Walking => if current == PlayerAnimState::MidAir || current
                == PlayerAnimState::Jumping || current == PlayerAnimState::Hurt {
                current
            } else {
                candidate
            },
            _ => candidate,
        }
    }
}

/// Exec twin of `spec_next_state`.
pub fn next_state_for_event(
    current: PlayerAnimState,
    state_time: i64,
    event: PlayerEvent,
) -> (r: PlayerAnimState)
    ensures
        r == spec_next_state(current, state_time, event),
{
    let candidate = match event {
        PlayerEvent::Airborne => PlayerAnimState::MidAir,
        PlayerEvent::Jumped => PlayerAnimState::Jumping,
        PlayerEvent::Grounded => PlayerAnimState::Landing,
        PlayerEvent::Moving => PlayerAnimState::Walking,
        PlayerEvent::Standing => PlayerAnimState::Standing,
        PlayerEvent::ShotWeb => PlayerAnimState::NoChange,
        PlayerEvent::Died => PlayerAnimState::NoChange,
        PlayerEvent::Collided => PlayerAnimState::NoChange,
    };
    if current == PlayerAnimState::Hurt && state_time < HURT_TIME {
        current
    } else {
        match candidate {
            PlayerAnimState::NoChange => current,
            PlayerAnimState::Standing => if current == PlayerAnimState::Idle {
                current
            } else {
                candidate
            },
            PlayerAnimState::MidAir => if current == PlayerAnimState::Jumping {
                current
            } else {
                candidate
            },
            PlayerAnimState::Walking => if current == PlayerAnimState::MidAir || current
                == PlayerAnimState::Jumping || current == PlayerAnimState::Hurt {
                current
            } else {
                candidate
            },
            _ => candidate,
        }
    }
}

/// After `IDLE_TIME` in `Standing` or `Landing` the player drifts to
/// `Idle`.
pub open spec fn spec_idle_drift(current: PlayerAnimState, state_time: i64) -> PlayerAnimState {
    if (current == PlayerAnimState::Standing || current == PlayerAnimState::Landing)
        && state_time >= IDLE_TIME {
        PlayerAnimState::Idle
    } else {
        current
    }
}

/// Exec twin of `spec_idle_drift`.
pub fn idle_drift(current: PlayerAnimState, state_time: i64) -> (r: PlayerAnimState)
    ensures
        r == spec_idle_drift(current, state_time),
{
    if (current == PlayerAnimState::Standing || current == PlayerAnimState::Landing)
        && state_time >= IDLE_TIME {
        PlayerAnimState::Idle
    } else {
        current
    }
}

/// While the movement axis is engaged the player walks, unless hurt or
/// in the air.
pub open spec fn spec_movement_state(current: PlayerAnimState, moving: bool) -> PlayerAnimState {
    if moving && !(current == PlayerAnimState::Hurt || current == PlayerAnimState::Jumping
        || current == PlayerAnimState::MidAir) {
        PlayerAnimState::Walking
    } else {
        current
    }
}

/// Exec twin of `spec_movement_state`.
pub fn movement_state(current: PlayerAnimState, moving: bool) -> (r: PlayerAnimState)
    ensures
        r == spec_movement_state(current, moving),
{
    if moving && !(current == PlayerAnimState::Hurt || current == PlayerAnimState::Jumping
        || current == PlayerAnimState::MidAir) {
        PlayerAnimState::Walking
    } else {
        current
    }
}

/// The fold of one tick's events, threading the "state held" clock the
/// way `AnimData::set_state` does: it restarts at zero exactly when the
/// state changes.
pub open spec fn spec_fold_events(
    current: PlayerAnimState,
    state_time: i64,
    events: Seq<PlayerEvent>,
) -> (PlayerAnimState, i64)
    decreases events.len(),
{
    if events.len() == 0 {
        (current, state_time)
    } else {
        let next = spec_next_state(current, state_time, events[0]);
        let next_time: i64 = if next == current {
            state_time
        } else {
            0
        };
        spec_fold_events(next, next_time, events.subrange(1, events.len() as int))
    }
}

/// The whole per-tick state decision: fold the tick's events, then the
/// idle drift, then the movement override, each restarting the held
/// clock exactly on a change.
pub open spec fn spec_player_tick(
    current: PlayerAnimState,
    state_time: i64,
    events: Seq<PlayerEvent>,
    moving: bool,
) -> (PlayerAnimState, i64) {
    let folded = spec_fold_events(current, state_time, events);
    let drifted = spec_idle_drift(folded.0, folded.1);
    let drifted_time: i64 = if drifted == folded.0 {
        folded.1
    } else {
        0
    };
    let moved = spec_movement_state(drifted, moving);
    let moved_time: i64 = if moved == drifted {
        drifted_time
    } else {
        0
    };
    (moved, moved_time)
}

/// The animation-facing slice of the player update: fold this tick's
/// gameplay events into the entity's requested state, apply the idle
/// drift and the movement override. `moving` says whether the input
/// axis is engaged. Playback fields and the logic stack are untouched.
pub fn update_animation(data: &mut AnimData, events: &Vec<PlayerEvent>, moving: bool)
    requires
        spec_state_of_id(old(data).state) is Some,
    ensures
        ({
            let tick = spec_player_tick(
                spec_state_of_id(old(data).state)->Some_0,
                old(data).state_time,
                events@,
                moving,
            );
            &&& final(data).state == spec_state_id(tick.0)
            &&& final(data).state_time == tick.1
        }),
        final(data).time == old(data).time,
        final(data).index == old(data).index,
        final(data).current_node == old(data).current_node,
        final(data).logic_stack@ == old(data).logic_stack@,
{
    let mut current = match PlayerAnimState::from_state_id(data.state) {
        Some(s) => s,
        None => vstd::pervasive::unreached(),
    };
    let mut state_time = data.state_time;
    let ghost start_state = current;
    let ghost start_time = state_time;
    let mut i: usize = 0;
    proof {
        assert(events@.subrange(0, events@.len() as int) =~= events@);
    }
    while i < events.len()
        invariant
            i <= events@.len(),
            spec_fold_events(current, state_time, events@.subrange(i as int, events@.len() as int))
                == spec_fold_events(start_state, start_time, events@),
        decreases events@.len() - i,
    {
        proof {
            assert(events@.subrange(i as int, events@.len() as int)[0] == events@[i as int]);
            assert(events@.subrange(i as int, events@.len() as int).subrange(
                1,
                events@.subrange(i as int, events@.len() as int).len() as int,
            ) =~= events@.subrange(i as int + 1, events@.len() as int));
        }
        let next = next_state_for_event(current, state_time, events[i]);
        if next != current {
            state_time = 0;
        }
        current = next;
        i = i + 1;
    }
    proof {
        assert(events@.subrange(events@.len() as int, events@.len() as int).len() == 0);
    }
    let drifted = idle_drift(current, state_time);
    if drifted != current {
        state_time = 0;
    }
    let moved = movement_state(drifted, moving);
    if moved != drifted {
        state_time = 0;
    }
    data.state = moved.state_id();
    data.state_time = state_time;
}

/// Ids of the player tree's nodes. The tree has a fixed shape and is
/// built once, so ids come from a counter rather than random draws.
pub const PLAYER_DISPATCH_NODE: NodeId = 1;

pub const PLAYER_IDLE_NODE: NodeId = 2;

pub const PLAYER_WALK_NODE: NodeId = 3;

pub const PLAYER_JUMP_ANIM_NODE: NodeId = 4;

pub const PLAYER_FLOAT_NODE: NodeId = 5;

pub const PLAYER_LAND_ANIM_NODE: NodeId = 6;

pub const PLAYER_STAND_NODE: NodeId = 7;

pub const PLAYER_JUMP_NODE: NodeId = 8;

pub const PLAYER_LAND_NODE: NodeId = 9;

/// Slow blinking loop on the first standing frame.
fn create_standing_anim() -> (r: AnimNode)
    ensures
        r.wf(),
        r.spec_id() == PLAYER_STAND_NODE,
        r matches AnimNode::PlayNode(p) && p.is_loop && p.reset,
{
    let frames: [usize; 1] = [0];
    AnimNode::PlayNode(
        PlayNode {
            id: PLAYER_STAND_NODE,
            speed: 300,
            anim: SpriteAnimation::new(FPS, frames.as_slice()),
            is_loop: true,
            reset: true,
        },
    )
}

/// Slow idle fidget loop.
fn create_idle_anim() -> (r: AnimNode)
    ensures
        r.wf(),
        r.spec_id() == PLAYER_IDLE_NODE,
        r matches AnimNode::PlayNode(p) && p.is_loop && p.reset,
{
    let frames: [usize; 7] = [4, 3, 0, 0, 4, 4, 4];
    AnimNode::PlayNode(
        PlayNode {
            id: PLAYER_IDLE_NODE,
            speed: 300,
            anim: SpriteAnimation::new(FPS, frames.as_slice()),
            is_loop: true,
            reset: true,
        },
    )
}

/// Walk cycle at nominal speed.
fn create_walking_anim() -> (r: AnimNode)
    ensures
        r.wf(),
        r.spec_id() == PLAYER_WALK_NODE,
        r matches AnimNode::PlayNode(p) && p.is_loop && p.reset,
{
    AnimNode::PlayNode(
        PlayNode {
            id: PLAYER_WALK_NODE,
            speed: 1000,
            anim: SpriteAnimation::new_range(FPS, 9, 14),
            is_loop: true,
            reset: true,
        },
    )
}

/// The single-frame jump pose, played fast, once.
fn create_jump_anim() -> (r: AnimNode)
    ensures
        r.wf(),
        r.spec_id() == PLAYER_JUMP_ANIM_NODE,
        r matches AnimNode::PlayNode(p) && !p.is_loop && p.reset,
{
    AnimNode::PlayNode(
        PlayNode {
            id: PLAYER_JUMP_ANIM_NODE,
            speed: 2000,
            anim: SpriteAnimation::new_range(FPS, 18, 18),
            is_loop: false,
            reset: true,
        },
    )
}

/// The floating pose while airborne, once.
fn create_floating_anim() -> (r: AnimNode)
    ensures
        r.wf(),
        r.spec_id() == PLAYER_FLOAT_NODE,
        r matches AnimNode::PlayNode(p) && !p.is_loop && p.reset,
{
    let frames: [usize; 4] = [21, 22, 23, 22];
    AnimNode::PlayNode(
        PlayNode {
            id: PLAYER_FLOAT_NODE,
            speed: 500,
            anim: SpriteAnimation::new(FPS, frames.as_slice()),
            is_loop: false,
            reset: true,
        },
    )
}

/// The landing squash, once.
fn create_land_anim() -> (r: AnimNode)
    ensures
        r.wf(),
        r.spec_id() == PLAYER_LAND_ANIM_NODE,
        r matches AnimNode::PlayNode(p) && !p.is_loop && p.reset,
{
    AnimNode::PlayNode(
        PlayNode {
            id: PLAYER_LAND_ANIM_NODE,
            speed: 1000,
            anim: SpriteAnimation::new_range(FPS, 24, 26),
            is_loop: false,
            reset: true,
        },
    )
}

/// The player's animation tree.
///
/// A dispatch node routes each requested state to its animation:
/// idle, walking and standing to looping playback nodes; jumping to a
/// two-phase composite (jump pose, then float); landing to another
/// (landing squash, then standing). There is no fallback target, so an
/// unmapped state halts animation.
pub fn build_anim_tree() -> (r: AnimTree)
    ensures
        r.wf(),
        r.start_node == PLAYER_DISPATCH_NODE,
        r.nodes@[PLAYER_DISPATCH_NODE] matches AnimNode::MatchNode(m) && m.default == NIL_NODE
            && m.pair@.contains_key(spec_state_id(PlayerAnimState::Idle)) && m.pair@[
            spec_state_id(PlayerAnimState::Idle)] == PLAYER_IDLE_NODE && m.pair@.contains_key(
            spec_state_id(PlayerAnimState::Walking),
        ) && m.pair@[spec_state_id(PlayerAnimState::Walking)] == PLAYER_WALK_NODE
            && m.pair@.contains_key(spec_state_id(PlayerAnimState::Jumping)) && m.pair@[
            spec_state_id(PlayerAnimState::Jumping)] == PLAYER_JUMP_NODE && m.pair@.contains_key(
            spec_state_id(PlayerAnimState::MidAir),
        ) && m.pair@[spec_state_id(PlayerAnimState::MidAir)] == PLAYER_FLOAT_NODE
            && m.pair@.contains_key(spec_state_id(PlayerAnimState::Landing)) && m.pair@[
            spec_state_id(PlayerAnimState::Landing)] == PLAYER_LAND_NODE && m.pair@.contains_key(
            spec_state_id(PlayerAnimState::Standing),
        ) && m.pair@[spec_state_id(PlayerAnimState::Standing)] == PLAYER_STAND_NODE
            && !m.pair@.contains_key(spec_state_id(PlayerAnimState::Hurt)),
        r.nodes@[PLAYER_JUMP_NODE] matches AnimNode::AllNode(a) && a.nodes@ == seq![
            PLAYER_JUMP_ANIM_NODE,
            PLAYER_FLOAT_NODE,
        ] && !a.is_loop,
        r.nodes@[PLAYER_LAND_NODE] matches AnimNode::AllNode(a) && a.nodes@ == seq![
            PLAYER_LAND_ANIM_NODE,
            PLAYER_STAND_NODE,
        ] && !a.is_loop,
        r.nodes@.contains_key(PLAYER_IDLE_NODE),
        r.nodes@.contains_key(PLAYER_WALK_NODE),
        r.nodes@.contains_key(PLAYER_JUMP_ANIM_NODE),
        r.nodes@.contains_key(PLAYER_FLOAT_NODE),
        r.nodes@.contains_key(PLAYER_LAND_ANIM_NODE),
        r.nodes@.contains_key(PLAYER_STAND_NODE),
        r.nodes@.contains_key(PLAYER_JUMP_NODE),
        r.nodes@.contains_key(PLAYER_LAND_NODE),
{
    let mut dispatch = MatchNode {
        id: PLAYER_DISPATCH_NODE,
        pair: std::collections::HashMap::new(),
        default: NIL_NODE,
    };
    dispatch.insert(PlayerAnimState::Idle.state_id(), PLAYER_IDLE_NODE);
    dispatch.insert(PlayerAnimState::Walking.state_id(), PLAYER_WALK_NODE);
    dispatch.insert(PlayerAnimState::Jumping.state_id(), PLAYER_JUMP_NODE);
    dispatch.insert(PlayerAnimState::MidAir.state_id(), PLAYER_FLOAT_NODE);
    dispatch.insert(PlayerAnimState::Landing.state_id(), PLAYER_LAND_NODE);
    dispatch.insert(PlayerAnimState::Standing.state_id(), PLAYER_STAND_NODE);

    let mut jump_children: Vec<NodeId> = Vec::new();
    jump_children.push(PLAYER_JUMP_ANIM_NODE);
    jump_children.push(PLAYER_FLOAT_NODE);
    proof {
        assert(jump_children@ =~= seq![PLAYER_JUMP_ANIM_NODE, PLAYER_FLOAT_NODE]);
    }
    let jump_node = AllNode { id: PLAYER_JUMP_NODE, nodes: jump_children, is_loop: false };

    let mut land_children: Vec<NodeId> = Vec::new();
    land_children.push(PLAYER_LAND_ANIM_NODE);
    land_children.push(PLAYER_STAND_NODE);
    proof {
        assert(land_children@ =~= seq![PLAYER_LAND_ANIM_NODE, PLAYER_STAND_NODE]);
    }
    let land_node = AllNode { id: PLAYER_LAND_NODE, nodes: land_children, is_loop: false };

    let mut tree = AnimTree::new(AnimNode::MatchNode(dispatch));
    insert_fresh(&mut tree, create_idle_anim());
    insert_fresh(&mut tree, create_walking_anim());
    insert_fresh(&mut tree, AnimNode::AllNode(jump_node));
    insert_fresh(&mut tree, create_floating_anim());
    insert_fresh(&mut tree, AnimNode::AllNode(land_node));
    insert_fresh(&mut tree, create_jump_anim());
    insert_fresh(&mut tree, create_land_anim());
    insert_fresh(&mut tree, create_standing_anim());
    tree
}

/// Insert a node whose explicit id is known to be unused; cannot fail.
fn insert_fresh(tree: &mut AnimTree, node: AnimNode)
    requires
        old(tree).wf(),
        node.wf(),
        node.spec_id() != NIL_NODE,
        !old(tree).nodes@.contains_key(node.spec_id()),
    ensures
        final(tree).wf(),
        final(tree).start_node == old(tree).start_node,
        final(tree).nodes@ == old(tree).nodes@.insert(node.spec_id(), node),
{
    let ghost n = node;
    match tree.insert_node(node) {
        Ok(_) => {
            proof {
                assert(n.with_id(n.spec_id()) == n);
            }
        },
        Err(_) => vstd::pervasive::unreached(),
    }
}

} // verus!
