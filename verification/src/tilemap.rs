//! Level-transition queries: deciding, from the level changes the host's
//! tilemap streamer announced this tick, whether the game entered or
//! left a particular level.

use vstd::prelude::*;

verus! {

/// How many levels the game has; the last one shows the credits.
pub const LEVEL_COUNT: usize = 6;

/// The index of the credits level (the last level).
pub const CREDITS_LEVEL_INDEX: usize = LEVEL_COUNT - 1;

/// One level change announced by the tilemap streamer.
#[derive(Clone, Copy, Debug, PartialEq, Eq, Structural)]
pub struct LevelChanged {
    pub previous: usize,
    pub current: usize,
}

/// Whether one level change matches the asked-for transition: with both
/// ends given, both must match; with one end given, that end must match;
/// with neither given, nothing matches.
pub open spec fn spec_matches_transition(
    event: LevelChanged,
    from_level: Option<usize>,
    to_level: Option<usize>,
) -> bool {
    match (from_level, to_level) {
        (None, None) => false,
        (Some(f), Some(t)) => event.previous == f && event.current == t,
        (None, Some(t)) => event.current == t,
        (Some(f), None) => event.previous == f,
    }
}

/// Whether any of this tick's level changes matches the transition.
pub open spec fn spec_transitioned(
    events: Seq<LevelChanged>,
    from_level: Option<usize>,
    to_level: Option<usize>,
) -> bool {
    exists|i: int|
        0 <= i < events.len() && spec_matches_transition(#[trigger] events[i], from_level, to_level)
}

/// True exactly when one of `events` goes from `from_level` to
/// `to_level`; an absent end matches any level, and asking for neither
/// end never matches.
pub fn transitioned_from_to(
    events: &Vec<LevelChanged>,
    from_level: Option<usize>,
    to_level: Option<usize>,
) -> (r: bool)
    ensures
        r == spec_transitioned(events@, from_level, to_level),
{
    let mut i: usize = 0;
    while i < events.len()
        invariant
            i <= events@.len(),
            forall|j: int|
                0 <= j < i ==> !spec_matches_transition(
                    #[trigger] events@[j],
                    from_level,
                    to_level,
                ),
        decreases events@.len() - i,
    {
        let ev = events[i];
        let matches_it = match (from_level, to_level) {
            (None, None) => false,
            (Some(f), Some(t)) => ev.previous == f && ev.current == t,
            (None, Some(t)) => ev.current == t,
            (Some(f), None) => ev.previous == f,
        };
        if matches_it {
            return true;
        }
        i = i + 1;
    }
    false
}

/// True exactly when one of this tick's changes lands on the credits
/// level.
pub fn entered_credits(events: &Vec<LevelChanged>) -> (r: bool)
    ensures
        r == spec_transitioned(events@, None::<usize>, Some(CREDITS_LEVEL_INDEX)),
{
    transitioned_from_to(events, None, Some(CREDITS_LEVEL_INDEX))
}

/// True exactly when one of this tick's changes leaves the credits
/// level.
pub fn exited_credits(events: &Vec<LevelChanged>) -> (r: bool)
    ensures
        r == spec_transitioned(events@, Some(CREDITS_LEVEL_INDEX), None::<usize>),
{
    transitioned_from_to(events, Some(CREDITS_LEVEL_INDEX), None)
}

} // verus!
