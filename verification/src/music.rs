//! Tracks, the one-shot event flags, and their consumption rules.

use vstd::prelude::*;

verus! {

/// Pitch value reserved for a rest: silence for the note's duration.
pub const RST: u16 = 0;

/// A control transfer out of the note loop: switch to the neighbouring track.
#[derive(Clone, Copy, Debug, PartialEq, Eq, Structural)]
pub enum MusicInterrupt {
    /// Switch one track backward (with wraparound).
    Previous,
    /// Switch one track forward (with wraparound).
    Next,
}

/// One track: a name for diagnostics and an ordered melody of
/// `(pitch, duration)` pairs. A pitch of [`RST`] is a rest; any other
/// pitch is a frequency in hertz. Durations are in milliseconds.
pub struct Music {
    pub name: String,
    pub melody: Vec<(u16, u16)>,
}

/// The four one-shot event flags: set by the sampler when a button press
/// is detected, atomically tested-and-cleared by exactly one consumer each.
/// Repeated presses before consumption coalesce into a single pending event.
#[derive(Clone, Copy, Debug, PartialEq, Eq, Structural)]
pub struct EventFlags {
    /// "Previous track requested"; consumed by the playback controller.
    pub previous: bool,
    /// "Next track requested"; consumed by the playback controller.
    pub next: bool,
    /// "Pause/resume requested"; consumed by the playback controller.
    pub turn: bool,
    /// "Indicator toggle requested"; consumed by the indicator handler.
    pub rgb: bool,
}

/// The flags with the "previous track" event pending.
pub open spec fn with_previous(f: EventFlags) -> EventFlags {
    EventFlags { previous: true, next: f.next, turn: f.turn, rgb: f.rgb }
}

/// The flags with the "next track" event pending.
pub open spec fn with_next(f: EventFlags) -> EventFlags {
    EventFlags { previous: f.previous, next: true, turn: f.turn, rgb: f.rgb }
}

/// The flags with the "pause/resume" event pending.
pub open spec fn with_turn(f: EventFlags) -> EventFlags {
    EventFlags { previous: f.previous, next: f.next, turn: true, rgb: f.rgb }
}

/// The flags with the "indicator toggle" event pending.
pub open spec fn with_rgb(f: EventFlags) -> EventFlags {
    EventFlags { previous: f.previous, next: f.next, turn: f.turn, rgb: true }
}

/// Law: setting the same one-shot flag any number of times before it is
/// consumed is equivalent to setting it once — a second set leaves the
/// flags exactly as they were after the first.
pub proof fn lemma_flag_set_idempotent(f: EventFlags)
    ensures
        with_previous(with_previous(f)) == with_previous(f),
        with_next(with_next(f)) == with_next(f),
        with_turn(with_turn(f)) == with_turn(f),
        with_rgb(with_rgb(f)) == with_rgb(f),
{
}

/// Request a switch to the previous track.
pub fn previous_music(flags: &mut EventFlags)
    ensures
        *final(flags) == with_previous(*old(flags)),
{
    flags.previous = true;
}

/// Request a switch to the next track.
pub fn next_music(flags: &mut EventFlags)
    ensures
        *final(flags) == with_next(*old(flags)),
{
    flags.next = true;
}

/// Request a pause, or a resume when already paused.
pub fn turn_music(flags: &mut EventFlags)
    ensures
        *final(flags) == with_turn(*old(flags)),
{
    flags.turn = true;
}

/// Request a toggle of the indicator.
pub fn request_rgb_toggle(flags: &mut EventFlags)
    ensures
        *final(flags) == with_rgb(*old(flags)),
{
    flags.rgb = true;
}

impl EventFlags {
    /// The power-up state: no event pending.
    pub fn new() -> (f: EventFlags)
        ensures
            f == (EventFlags { previous: false, next: false, turn: false, rgb: false }),
    {
        EventFlags { previous: false, next: false, turn: false, rgb: false }
    }

    /// Test and clear the pause/resume flag, returning whether it was set.
    pub fn take_turn(&mut self) -> (r: bool)
        ensures
            r == old(self).turn,
            *final(self) == (EventFlags {
                previous: old(self).previous,
                next: old(self).next,
                turn: false,
                rgb: old(self).rgb,
            }),
    {
        let was: bool = self.turn;
        self.turn = false;
        was
    }

    /// Test and clear the indicator-toggle flag, returning whether it was set.
    pub fn take_rgb(&mut self) -> (r: bool)
        ensures
            r == old(self).rgb,
            *final(self) == (EventFlags {
                previous: old(self).previous,
                next: old(self).next,
                turn: old(self).turn,
                rgb: false,
            }),
    {
        let was: bool = self.rgb;
        self.rgb = false;
        was
    }

    /// The navigation tier of the interruption check. If "previous" is
    /// pending it wins and the stale "next" is discarded; otherwise a
    /// pending "next" wins. Either way both navigation flags end cleared,
    /// so two near-simultaneous requests yield exactly one switch.
    pub fn check_should_interrupt(&mut self) -> (r: Result<(), MusicInterrupt>)
        ensures
            final(self).previous == false,
            final(self).next == false,
            final(self).turn == old(self).turn,
            final(self).rgb == old(self).rgb,
            old(self).previous ==> r == Err::<(), MusicInterrupt>(MusicInterrupt::Previous),
            !old(self).previous && old(self).next ==> r == Err::<(), MusicInterrupt>(
                MusicInterrupt::Next,
            ),
            !old(self).previous && !old(self).next ==> r == Ok::<(), MusicInterrupt>(()),
    {
        if self.previous {
            self.previous = false;
            self.next = false;
            return Err(MusicInterrupt::Previous);
        }
        if self.next {
            self.next = false;
            self.previous = false;
            return Err(MusicInterrupt::Next);
        }
        Ok(())
    }
}

} // verus!
