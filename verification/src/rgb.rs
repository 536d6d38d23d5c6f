//! The indicator: a persistent on/off state behind three intensity channels.

use crate::music::EventFlags;
use vstd::prelude::*;

verus! {

/// The persistent indicator state. Power-up default: off.
#[derive(Clone, Copy, Debug, PartialEq, Eq, Structural)]
pub struct RgbState {
    /// Whether the three intensity channels are currently lit.
    pub on: bool,
}

/// What the caller must apply to the three intensity channels after a toggle.
#[derive(Clone, Copy, Debug, PartialEq, Eq, Structural)]
pub enum RgbAction {
    /// Enable all three intensity channels.
    Enable,
    /// Disable all three intensity channels.
    Disable,
}

/// The indicator state flipped once.
pub open spec fn toggled(s: RgbState) -> RgbState {
    RgbState { on: !s.on }
}

/// Law: two toggles restore the indicator state — parity is preserved,
/// so an even number of presses always lands back where it started.
pub proof fn lemma_toggle_parity(s: RgbState)
    ensures
        toggled(toggled(s)) == s,
{
}

impl RgbState {
    /// The power-up state: indicator off.
    pub fn new() -> (s: RgbState)
        ensures
            s == (RgbState { on: false }),
    {
        RgbState { on: false }
    }
}

/// Flip the persistent indicator state and say what to do with the
/// channels: enable them when turning on, disable them when turning off.
pub fn switch_rgb_led(state: &mut RgbState) -> (r: RgbAction)
    ensures
        *final(state) == toggled(*old(state)),
        r == (if old(state).on {
            RgbAction::Disable
        } else {
            RgbAction::Enable
        }),
{
    state.on = !state.on;
    if state.on {
        RgbAction::Enable
    } else {
        RgbAction::Disable
    }
}

/// Consume the indicator-toggle flag: when it was pending, flip the state
/// and return the channel action to apply; otherwise change nothing.
/// Independent of playback: runs whether music is playing, paused, or
/// between tracks.
pub fn service_rgb(flags: &mut EventFlags, state: &mut RgbState) -> (r: Option<RgbAction>)
    ensures
        *final(flags) == (EventFlags {
            previous: old(flags).previous,
            next: old(flags).next,
            turn: old(flags).turn,
            rgb: false,
        }),
        old(flags).rgb ==> *final(state) == toggled(*old(state)) && r == Some(
            if old(state).on {
                RgbAction::Disable
            } else {
                RgbAction::Enable
            },
        ),
        !old(flags).rgb ==> *final(state) == *old(state) && r == None::<RgbAction>,
{
    if flags.take_rgb() {
        Some(switch_rgb_led(state))
    } else {
        None
    }
}

} // verus!
