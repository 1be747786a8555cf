//! Player-facing display settings and the key-cycled transitions between
//! them. Applying a setting to a real window is the host's business; the
//! settings themselves and how they cycle live here.

use vstd::prelude::*;

verus! {

/// The window modes a player can cycle through.
#[derive(Clone, Copy, Debug, PartialEq, Eq, Structural)]
pub enum DisplayMode {
    FullScreen,
    BorderlessWindow,
    Windowed,
}

impl Default for DisplayMode {
    fn default() -> (r: DisplayMode)
        ensures
            r == DisplayMode::Windowed,
    {
        DisplayMode::Windowed
    }
}

/// The fixed resolutions on offer.
#[derive(Clone, Copy, Debug, PartialEq, Eq, Structural)]
pub enum DisplayResolution {
    Res1920x1080,
    Res1280x720,
    Res800x600,
}

impl DisplayResolution {
    /// Width and height in pixels.
    pub open spec fn spec_size(self) -> (u32, u32) {
        match self {
            DisplayResolution::Res1920x1080 => (1920u32, 1080u32),
            DisplayResolution::Res1280x720 => (1280u32, 720u32),
            DisplayResolution::Res800x600 => (800u32, 600u32),
        }
    }

    /// Width and height in pixels.
    pub fn to_pair(&self) -> (r: (u32, u32))
        ensures
            r == self.spec_size(),
    {
        match self {
            DisplayResolution::Res1920x1080 => (1920, 1080),
            DisplayResolution::Res1280x720 => (1280, 720),
            DisplayResolution::Res800x600 => (800, 600),
        }
    }
}

impl Default for DisplayResolution {
    fn default() -> (r: DisplayResolution)
        ensures
            r == DisplayResolution::Res1280x720,
    {
        DisplayResolution::Res1280x720
    }
}

/// Vertical sync on or off.
#[derive(Clone, Copy, Debug, PartialEq, Eq, Structural)]
pub enum DisplayVsync {
    On,
    Off,
}

impl Default for DisplayVsync {
    fn default() -> (r: DisplayVsync)
        ensures
            r == DisplayVsync::On,
    {
        DisplayVsync::On
    }
}

/// What a settings change announces to the rest of the game.
#[derive(Clone, Copy, Debug, PartialEq, Eq, Structural)]
pub enum DisplaySettingEvent {
    ModeChanged(DisplayMode),
    ResolutionChanged(DisplayResolution),
    VsyncChanged(DisplayVsync),
}

/// The current display settings.
#[derive(Clone, Copy, Debug, PartialEq, Eq, Structural)]
pub struct DisplaySettings {
    pub resolution: DisplayResolution,
    pub vsync: DisplayVsync,
    pub mode: DisplayMode,
}

impl Default for DisplaySettings {
    fn default() -> (r: DisplaySettings)
        ensures
            r.resolution == DisplayResolution::Res1280x720,
            r.vsync == DisplayVsync::On,
            r.mode == DisplayMode::Windowed,
    {
        DisplaySettings {
            resolution: DisplayResolution::Res1280x720,
            vsync: DisplayVsync::On,
            mode: DisplayMode::Windowed,
        }
    }
}

/// The cycle fullscreen → borderless → windowed → fullscreen.
pub open spec fn spec_next_mode(mode: DisplayMode) -> DisplayMode {
    match mode {
        DisplayMode::FullScreen => DisplayMode::BorderlessWindow,
        DisplayMode::BorderlessWindow => DisplayMode::Windowed,
        DisplayMode::Windowed => DisplayMode::FullScreen,
    }
}

/// The toggle on ↔ off.
pub open spec fn spec_next_vsync(vsync: DisplayVsync) -> DisplayVsync {
    match vsync {
        DisplayVsync::On => DisplayVsync::Off,
        DisplayVsync::Off => DisplayVsync::On,
    }
}

/// The cycle 1920x1080 → 1280x720 → 800x600 → 1920x1080.
pub open spec fn spec_next_resolution(resolution: DisplayResolution) -> DisplayResolution {
    match resolution {
        DisplayResolution::Res1920x1080 => DisplayResolution::Res1280x720,
        DisplayResolution::Res1280x720 => DisplayResolution::Res800x600,
        DisplayResolution::Res800x600 => DisplayResolution::Res1920x1080,
    }
}

/// Advance the window mode one step along its cycle; the other settings
/// are untouched. Returns the new mode.
pub fn change_mode_setting(settings: &mut DisplaySettings) -> (r: DisplayMode)
    ensures
        final(settings).mode == spec_next_mode(old(settings).mode),
        r == final(settings).mode,
        final(settings).resolution == old(settings).resolution,
        final(settings).vsync == old(settings).vsync,
{
    settings.mode = match settings.mode {
        DisplayMode::FullScreen => DisplayMode::BorderlessWindow,
        DisplayMode::BorderlessWindow => DisplayMode::Windowed,
        DisplayMode::Windowed => DisplayMode::FullScreen,
    };
    settings.mode
}

/// Toggle vertical sync; the other settings are untouched. Returns the
/// new value.
pub fn change_vsync_setting(settings: &mut DisplaySettings) -> (r: DisplayVsync)
    ensures
        final(settings).vsync == spec_next_vsync(old(settings).vsync),
        r == final(settings).vsync,
        final(settings).resolution == old(settings).resolution,
        final(settings).mode == old(settings).mode,
{
    settings.vsync = match settings.vsync {
        DisplayVsync::On => DisplayVsync::Off,
        DisplayVsync::Off => DisplayVsync::On,
    };
    settings.vsync
}

/// Advance the resolution one step along its cycle; the other settings
/// are untouched. Returns the new resolution.
pub fn change_resolution_setting(settings: &mut DisplaySettings) -> (r: DisplayResolution)
    ensures
        final(settings).resolution == spec_next_resolution(old(settings).resolution),
        r == final(settings).resolution,
        final(settings).vsync == old(settings).vsync,
        final(settings).mode == old(settings).mode,
{
    settings.resolution = match settings.resolution {
        DisplayResolution::Res1920x1080 => DisplayResolution::Res1280x720,
        DisplayResolution::Res1280x720 => DisplayResolution::Res800x600,
        DisplayResolution::Res800x600 => DisplayResolution::Res1920x1080,
    };
    settings.resolution
}

} // verus!
