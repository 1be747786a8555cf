//! Display settings cycling, the boolean flip helper, the chaining
//! combinator, per-entity state bookkeeping, and placeholder nodes.

use sprite_animation::anim_data::AnimData;
use sprite_animation::any_node::AnyNode;
use sprite_animation::bool_utils::Flip;
use sprite_animation::chaining::Chaining;
use sprite_animation::display::{
    change_mode_setting, change_resolution_setting, change_vsync_setting, DisplayMode,
    DisplayResolution, DisplaySettingEvent, DisplaySettings, DisplayVsync,
};
use sprite_animation::nodes::NodeResult;
use sprite_animation::{AnimTreeError, NIL_NODE, NO_SPRITE_CHANGE};

#[test]
fn display_defaults() {
    let s = DisplaySettings::default();
    assert_eq!(s.mode, DisplayMode::Windowed);
    assert_eq!(s.resolution, DisplayResolution::Res1280x720);
    assert_eq!(s.vsync, DisplayVsync::On);
}

#[test]
fn mode_cycles_through_all_three() {
    let mut s = DisplaySettings::default();
    assert_eq!(change_mode_setting(&mut s), DisplayMode::FullScreen);
    assert_eq!(change_mode_setting(&mut s), DisplayMode::BorderlessWindow);
    assert_eq!(change_mode_setting(&mut s), DisplayMode::Windowed);
    // Three changes return to the start; nothing else moved.
    assert_eq!(s, DisplaySettings::default());
}

#[test]
fn vsync_toggles() {
    let mut s = DisplaySettings::default();
    assert_eq!(change_vsync_setting(&mut s), DisplayVsync::Off);
    assert_eq!(change_vsync_setting(&mut s), DisplayVsync::On);
    assert_eq!(s.mode, DisplayMode::Windowed);
}

#[test]
fn resolution_cycles_through_all_three() {
    let mut s = DisplaySettings::default();
    assert_eq!(
        change_resolution_setting(&mut s),
        DisplayResolution::Res800x600
    );
    assert_eq!(
        change_resolution_setting(&mut s),
        DisplayResolution::Res1920x1080
    );
    assert_eq!(
        change_resolution_setting(&mut s),
        DisplayResolution::Res1280x720
    );
}

#[test]
fn resolution_sizes() {
    assert_eq!(DisplayResolution::Res1920x1080.to_pair(), (1920, 1080));
    assert_eq!(DisplayResolution::Res1280x720.to_pair(), (1280, 720));
    assert_eq!(DisplayResolution::Res800x600.to_pair(), (800, 600));
}

#[test]
fn setting_events_carry_the_new_value() {
    let mut s = DisplaySettings::default();
    let e = DisplaySettingEvent::ModeChanged(change_mode_setting(&mut s));
    assert_eq!(e, DisplaySettingEvent::ModeChanged(DisplayMode::FullScreen));
}

#[test]
fn flip_toggles_in_place() {
    let mut b = false;
    assert!(b.flip());
    assert!(b);
    assert!(!b.flip());
    assert!(!b);
}

#[test]
fn chaining_runs_and_passes_through() {
    let r: i32 = ().chain(|| 5);
    assert_eq!(r, 5);
    let passed: u8 = <() as Chaining<fn() -> u8, u8>>::chain_some(&(), 7);
    assert_eq!(passed, 7);
}

#[test]
fn anim_data_defaults_and_state_clock() {
    let mut d = AnimData::default();
    assert_eq!(d.time, 0);
    assert_eq!(d.index, 0);
    assert_eq!(d.current_node, NIL_NODE);
    assert!(d.logic_stack.is_empty());
    assert_eq!(d.get_state(), 0);
    assert_eq!(d.get_state_time(), 0);

    d.add_state_time(250);
    d.add_state_time(750);
    assert_eq!(d.get_state_time(), 1000);

    // Setting the same state keeps the clock.
    d.set_state(0);
    assert_eq!(d.get_state_time(), 1000);

    // Setting another state restarts it.
    d.set_state(3);
    assert_eq!(d.get_state(), 3);
    assert_eq!(d.get_state_time(), 0);
}

#[test]
fn state_clock_saturates() {
    let mut d = AnimData::new(1);
    d.state_time = i64::MAX - 10;
    d.add_state_time(100);
    assert_eq!(d.get_state_time(), i64::MAX);
}

#[test]
fn any_node_always_fails() {
    let node = AnyNode {};
    assert_eq!(
        node.execute(),
        NodeResult::Failed(AnimTreeError::Unspecified)
    );
    assert!(!AnimTreeError::Unspecified.is_fatal());
}

#[test]
fn sprite_sentinel_is_usize_max() {
    assert_eq!(NO_SPRITE_CHANGE, usize::MAX);
}
