//! The playback controller: a step machine over the catalog and the flags.
//!
//! The controller owns the playback cursor and walks the selected track's
//! melody note by note. At every note boundary (and once after a track's
//! closing gap) it consults the event flags: a pending pause request
//! suspends progression until a resume or a navigation request arrives; a
//! navigation request aborts the track and moves the cursor with
//! wraparound. Each step returns the one action the caller must perform
//! on the output hardware (sound a note, hold a gap, or wait).

use crate::music::{EventFlags, Music, MusicInterrupt, RST};
use vstd::arithmetic::div_mod::{
    lemma_add_mod_noop, lemma_mod_add_multiples_vanish, lemma_mod_bound, lemma_mod_multiples_vanish,
    lemma_mod_self_0, lemma_small_mod,
};
use vstd::prelude::*;

verus! {

/// Milliseconds of silence before a track's first note.
pub const LEAD_IN_MS: u16 = 300;

/// Milliseconds the tone stays disabled between two notes, so that equal
/// consecutive pitches stay audibly separate.
pub const NOTE_GAP_MS: u16 = 10;

/// Milliseconds of silence after a track's last note, before the final
/// interruption check decides how the cursor moves.
pub const TRACK_GAP_MS: u16 = 1500;

/// The playback cursor one step forward, wrapping from the last track to
/// the first.
pub open spec fn next_of(i: usize, n: usize) -> usize {
    if i + 1 == n {
        0usize
    } else {
        (i + 1) as usize
    }
}

/// The playback cursor one step backward, wrapping from the first track
/// to the last.
pub open spec fn prev_of(i: usize, n: usize) -> usize {
    if i == 0 {
        (n - 1) as usize
    } else {
        (i - 1) as usize
    }
}

/// Advance the cursor to the next track, wrapping modulo the catalog size.
pub fn next_index(i: usize, n: usize) -> (r: usize)
    requires
        1 <= n,
        i < n,
    ensures
        r == next_of(i, n),
        r as int == (i as int + 1) % (n as int),
        r < n,
{
    let r: usize = if i + 1 == n {
        0
    } else {
        i + 1
    };
    proof {
        if i + 1 == n {
            lemma_mod_self_0(n as int);
        } else {
            lemma_small_mod((i + 1) as nat, n as nat);
        }
    }
    r
}

/// Move the cursor to the previous track, wrapping modulo the catalog size.
pub fn prev_index(i: usize, n: usize) -> (r: usize)
    requires
        1 <= n,
        i < n,
    ensures
        r == prev_of(i, n),
        r as int == (i as int + n as int - 1) % (n as int),
        r < n,
{
    let r: usize = if i == 0 {
        n - 1
    } else {
        i - 1
    };
    proof {
        if i == 0 {
            lemma_small_mod((n - 1) as nat, n as nat);
        } else {
            lemma_mod_add_multiples_vanish((i - 1) as int, n as int);
            lemma_small_mod((i - 1) as nat, n as nat);
        }
    }
    r
}

/// The cursor after `k` applications of "next" in a catalog of `n` tracks.
pub open spec fn iter_next(i: int, n: int, k: nat) -> int
    decreases k,
{
    if k == 0 {
        i
    } else {
        (iter_next(i, n, (k - 1) as nat) + 1) % n
    }
}

/// The cursor after `k` applications of "previous" in a catalog of `n`
/// tracks.
pub open spec fn iter_prev(i: int, n: int, k: nat) -> int
    decreases k,
{
    if k == 0 {
        i
    } else {
        (iter_prev(i, n, (k - 1) as nat) + n - 1) % n
    }
}

/// Repeated "next" is addition modulo the catalog size.
pub proof fn lemma_iter_next_formula(i: int, n: int, k: nat)
    requires
        1 <= n,
        0 <= i < n,
    ensures
        iter_next(i, n, k) == (i + k) % n,
    decreases k,
{
    if k == 0 {
        lemma_small_mod(i as nat, n as nat);
    } else {
        lemma_iter_next_formula(i, n, (k - 1) as nat);
        lemma_add_mod_noop(i + k - 1, 1, n);
        if n == 1 {
            lemma_mod_bound((i + k - 1) % n + 1, n);
            lemma_mod_bound(i + k, n);
        } else {
            lemma_small_mod(1nat, n as nat);
        }
    }
}

/// Repeated "previous" is subtraction modulo the catalog size, written
/// without negative numbers: each step adds `n - 1`.
pub proof fn lemma_iter_prev_formula(i: int, n: int, k: nat)
    requires
        1 <= n,
        0 <= i < n,
    ensures
        iter_prev(i, n, k) == (i + k * (n - 1)) % n,
    decreases k,
{
    if k == 0 {
        lemma_small_mod(i as nat, n as nat);
    } else {
        lemma_iter_prev_formula(i, n, (k - 1) as nat);
        lemma_add_mod_noop(i + (k - 1) * (n - 1), n - 1, n);
        lemma_small_mod((n - 1) as nat, n as nat);
        assert(i + (k - 1) * (n - 1) + (n - 1) == i + k * (n - 1)) by (nonlinear_arith);
    }
}

/// Law: in a catalog of `n` tracks, applying "next" `n` times returns the
/// cursor to where it started, whatever the starting index.
pub proof fn lemma_next_wraps_around(i: int, n: int)
    requires
        1 <= n,
        0 <= i < n,
    ensures
        iter_next(i, n, n as nat) == i,
{
    lemma_iter_next_formula(i, n, n as nat);
    lemma_mod_add_multiples_vanish(i, n);
    lemma_small_mod(i as nat, n as nat);
}

/// Law: in a catalog of `n` tracks, applying "previous" `n` times returns
/// the cursor to where it started, whatever the starting index.
pub proof fn lemma_prev_wraps_around(i: int, n: int)
    requires
        1 <= n,
        0 <= i < n,
    ensures
        iter_prev(i, n, n as nat) == i,
{
    lemma_iter_prev_formula(i, n, n as nat);
    lemma_mod_multiples_vanish(n - 1, i, n);
    assert(i + n * (n - 1) == n * (n - 1) + i) by (nonlinear_arith);
    lemma_small_mod(i as nat, n as nat);
}

/// The controller's cursor steps agree with the modular arithmetic the
/// wraparound laws are stated over.
pub proof fn lemma_cursor_steps_are_modular(i: usize, n: usize)
    requires
        1 <= n,
        i < n,
    ensures
        next_of(i, n) as int == iter_next(i as int, n as int, 1),
        prev_of(i, n) as int == iter_prev(i as int, n as int, 1),
{
    assert(iter_next(i as int, n as int, 0nat) == i as int);
    assert(iter_prev(i as int, n as int, 0nat) == i as int);
    assert(iter_next(i as int, n as int, 1nat) == (i as int + 1) % (n as int));
    assert(iter_prev(i as int, n as int, 1nat) == (i as int + n as int - 1) % (n as int));
    if i + 1 == n {
        lemma_mod_self_0(n as int);
    } else {
        lemma_small_mod((i + 1) as nat, n as nat);
    }
    if i == 0 {
        lemma_small_mod((n - 1) as nat, n as nat);
    } else {
        lemma_mod_add_multiples_vanish((i - 1) as int, n as int);
        lemma_small_mod((i - 1) as nat, n as nat);
    }
}

/// Where the controller stands inside the selected track.
#[derive(Clone, Copy, Debug, PartialEq, Eq, Structural)]
pub enum Phase {
    /// The lead-in silence before the first note is still owed.
    Start,
    /// The next note to consider is `pos`; `pos` equal to the melody
    /// length means the end-of-track gap is owed next.
    Note { pos: usize },
    /// The end-of-track gap has elapsed; one final interruption check
    /// decides how the cursor moves on.
    FinalCheck,
}

/// The playback controller's state: the cursor, the position inside the
/// selected track, and whether progression is suspended.
#[derive(Clone, Copy, Debug, PartialEq, Eq, Structural)]
pub struct Player {
    /// The playback cursor: always a valid catalog index.
    pub index: usize,
    pub phase: Phase,
    /// While set, no note sounds and no duration elapses; only a resume
    /// or a navigation request ends it.
    pub paused: bool,
}

/// The one action a step asks the caller to perform on the outputs.
/// Every sounding action leaves the tone channel disabled afterwards:
/// [`Play`](StepAction::Play) and [`Rest`](StepAction::Rest) end with the
/// inter-note gap, the other actions never enable the tone.
#[derive(Clone, Copy, Debug, PartialEq, Eq, Structural)]
pub enum StepAction {
    /// Hold silence for [`LEAD_IN_MS`] before the first note of a track.
    LeadIn,
    /// Drive the intensity channels from `freq`, sound `freq` for `ms`
    /// milliseconds, then disable the tone for [`NOTE_GAP_MS`].
    Play { freq: u16, ms: u16 },
    /// Drive the intensity channels, keep the tone disabled for `ms`
    /// milliseconds, then hold [`NOTE_GAP_MS`] more.
    Rest { ms: u16 },
    /// The track's notes are done: keep the tone disabled for
    /// [`TRACK_GAP_MS`].
    TrackGap,
    /// The track completed naturally; the cursor moved one track forward.
    TrackDone,
    /// A navigation request took effect; the cursor moved in `dir`.
    Switch { dir: MusicInterrupt },
    /// Paused with nothing pending: wait for the next interrupt.
    Sleep,
}

/// A valid controller state for the given catalog.
pub open spec fn player_wf(p: Player, catalog: Seq<Music>) -> bool {
    &&& catalog.len() >= 1
    &&& p.index < catalog.len()
    &&& match p.phase {
        Phase::Note { pos } => pos <= catalog[p.index as int].melody@.len(),
        _ => true,
    }
}

/// Whether the controller consults the event flags before its next
/// action: it does at every note boundary and at the final check, never
/// before the unconditional lead-in and end-of-track gaps.
pub open spec fn at_checkpoint(p: Player, catalog: Seq<Music>) -> bool {
    match p.phase {
        Phase::Start => false,
        Phase::Note { pos } => pos < catalog[p.index as int].melody@.len(),
        Phase::FinalCheck => true,
    }
}

/// The action a note asks for: a rest keeps the tone disabled, any other
/// pitch sounds.
pub open spec fn play_note_action(note: (u16, u16)) -> StepAction {
    if note.0 == RST {
        StepAction::Rest { ms: note.1 }
    } else {
        StepAction::Play { freq: note.0, ms: note.1 }
    }
}

/// The controller after a navigation request: cursor moved with
/// wraparound, back at the start of the newly selected track, not paused.
pub open spec fn switch_spec(p: Player, n: usize, dir: MusicInterrupt) -> Player {
    Player {
        index: match dir {
            MusicInterrupt::Previous => prev_of(p.index, n),
            MusicInterrupt::Next => next_of(p.index, n),
        },
        phase: Phase::Start,
        paused: false,
    }
}

/// One uninterrupted stride of playback: the action owed at the current
/// phase, and the phase (or cursor, at the final check) after it.
pub open spec fn proceed_spec(p: Player, catalog: Seq<Music>) -> (Player, StepAction) {
    match p.phase {
        Phase::Start => (
            Player { index: p.index, phase: Phase::Note { pos: 0usize }, paused: p.paused },
            StepAction::LeadIn,
        ),
        Phase::Note { pos } => {
            let melody = catalog[p.index as int].melody@;
            if pos < melody.len() {
                (
                    Player {
                        index: p.index,
                        phase: Phase::Note { pos: (pos + 1) as usize },
                        paused: p.paused,
                    },
                    play_note_action(melody[pos as int]),
                )
            } else {
                (
                    Player { index: p.index, phase: Phase::FinalCheck, paused: p.paused },
                    StepAction::TrackGap,
                )
            }
        },
        Phase::FinalCheck => (
            Player {
                index: next_of(p.index, catalog.len() as usize),
                phase: Phase::Start,
                paused: p.paused,
            },
            StepAction::TrackDone,
        ),
    }
}

/// The one-step transition of the playback controller, as a function of
/// the machine state, the pending flags and the catalog: the state after
/// the step, the flags after consumption, and the action emitted.
///
/// Paused, a pending pause/resume event resumes and the owed stride is
/// performed at once; a pending navigation event escapes the pause and
/// moves the cursor; otherwise the controller merely waits. Playing, the
/// flags are consulted only at a checkpoint — pause suspends before the
/// note sounds, navigation aborts the track — and the owed stride is
/// performed when nothing is pending.
pub open spec fn step_spec(p: Player, f: EventFlags, catalog: Seq<Music>) -> (
    Player,
    EventFlags,
    StepAction,
) {
    let n = catalog.len() as usize;
    if p.paused {
        if f.turn {
            let resumed = Player { index: p.index, phase: p.phase, paused: false };
            let (p2, a) = proceed_spec(resumed, catalog);
            (p2, EventFlags { previous: f.previous, next: f.next, turn: false, rgb: f.rgb }, a)
        } else if f.previous {
            (
                switch_spec(p, n, MusicInterrupt::Previous),
                EventFlags { previous: false, next: false, turn: f.turn, rgb: f.rgb },
                StepAction::Switch { dir: MusicInterrupt::Previous },
            )
        } else if f.next {
            (
                switch_spec(p, n, MusicInterrupt::Next),
                EventFlags { previous: false, next: false, turn: f.turn, rgb: f.rgb },
                StepAction::Switch { dir: MusicInterrupt::Next },
            )
        } else {
            (p, f, StepAction::Sleep)
        }
    } else if at_checkpoint(p, catalog) {
        if f.turn {
            (
                Player { index: p.index, phase: p.phase, paused: true },
                EventFlags { previous: f.previous, next: f.next, turn: false, rgb: f.rgb },
                StepAction::Sleep,
            )
        } else if f.previous {
            (
                switch_spec(p, n, MusicInterrupt::Previous),
                EventFlags { previous: false, next: false, turn: f.turn, rgb: f.rgb },
                StepAction::Switch { dir: MusicInterrupt::Previous },
            )
        } else if f.next {
            (
                switch_spec(p, n, MusicInterrupt::Next),
                EventFlags { previous: false, next: false, turn: f.turn, rgb: f.rgb },
                StepAction::Switch { dir: MusicInterrupt::Next },
            )
        } else {
            let (p2, a) = proceed_spec(p, catalog);
            (p2, f, a)
        }
    } else {
        let (p2, a) = proceed_spec(p, catalog);
        (p2, f, a)
    }
}

impl Player {
    /// The power-up state: first track selected, about to start, playing.
    pub fn new() -> (p: Player)
        ensures
            p == (Player { index: 0usize, phase: Phase::Start, paused: false }),
    {
        Player { index: 0, phase: Phase::Start, paused: false }
    }

    /// Move the cursor as a navigation request `dir` demands and return
    /// to the start of the newly selected track, leaving any pause.
    fn switch(&mut self, dir: MusicInterrupt, n: usize)
        requires
            1 <= n,
            old(self).index < n,
        ensures
            *final(self) == switch_spec(*old(self), n, dir),
    {
        self.index = match dir {
            MusicInterrupt::Previous => prev_index(self.index, n),
            MusicInterrupt::Next => next_index(self.index, n),
        };
        self.phase = Phase::Start;
        self.paused = false;
    }

    /// Perform the owed stride without consulting the flags: the lead-in,
    /// the note at the current position, the end-of-track gap, or the
    /// natural advance to the next track.
    fn proceed(&mut self, catalog: &Vec<Music>) -> (a: StepAction)
        requires
            player_wf(*old(self), catalog@),
        ensures
            (*final(self), a) == proceed_spec(*old(self), catalog@),
            player_wf(*final(self), catalog@),
    {
        match self.phase {
            Phase::Start => {
                self.phase = Phase::Note { pos: 0 };
                StepAction::LeadIn
            },
            Phase::Note { pos } => {
                let track: &Music = &catalog[self.index];
                if pos < track.melody.len() {
                    let note: (u16, u16) = track.melody[pos];
                    self.phase = Phase::Note { pos: pos + 1 };
                    if note.0 == RST {
                        StepAction::Rest { ms: note.1 }
                    } else {
                        StepAction::Play { freq: note.0, ms: note.1 }
                    }
                } else {
                    self.phase = Phase::FinalCheck;
                    StepAction::TrackGap
                }
            },
            Phase::FinalCheck => {
                self.index = next_index(self.index, catalog.len());
                self.phase = Phase::Start;
                StepAction::TrackDone
            },
        }
    }

    /// One step of the playback controller: consume at most one pending
    /// event as [`step_spec`] says and return the action the caller must
    /// perform before stepping again.
    pub fn step(&mut self, catalog: &Vec<Music>, flags: &mut EventFlags) -> (a: StepAction)
        requires
            player_wf(*old(self), catalog@),
        ensures
            (*final(self), *final(flags), a) == step_spec(*old(self), *old(flags), catalog@),
            player_wf(*final(self), catalog@),
    {
        let n: usize = catalog.len();
        if self.paused {
            if flags.take_turn() {
                self.paused = false;
                self.proceed(catalog)
            } else {
                match flags.check_should_interrupt() {
                    Err(dir) => {
                        self.switch(dir, n);
                        StepAction::Switch { dir }
                    },
                    Ok(()) => StepAction::Sleep,
                }
            }
        } else {
            let check: bool = match self.phase {
                Phase::Start => false,
                Phase::Note { pos } => pos < catalog[self.index].melody.len(),
                Phase::FinalCheck => true,
            };
            if check {
                if flags.take_turn() {
                    self.paused = true;
                    StepAction::Sleep
                } else {
                    match flags.check_should_interrupt() {
                        Err(dir) => {
                            self.switch(dir, n);
                            StepAction::Switch { dir }
                        },
                        Ok(()) => self.proceed(catalog),
                    }
                }
            } else {
                self.proceed(catalog)
            }
        }
    }
}

/// Law: while paused with nothing pending, a step changes neither the
/// controller nor the flags and only waits — no output changes and no
/// playback duration elapses until an event arrives.
pub proof fn lemma_paused_is_quiescent(p: Player, f: EventFlags, catalog: Seq<Music>)
    requires
        p.paused,
        !f.turn,
        !f.previous,
        !f.next,
    ensures
        step_spec(p, f, catalog) == (p, f, StepAction::Sleep),
{
}

/// Law: a pause/resume event observed while paused ends the suspension at
/// once — the pending flag is consumed and the stride that was owed when
/// the pause began (the very note, gap or advance held back) is performed.
pub proof fn lemma_resume_performs_owed_stride(p: Player, f: EventFlags, catalog: Seq<Music>)
    requires
        p.paused,
        f.turn,
    ensures
        ({
            let (p2, f2, a) = step_spec(p, f, catalog);
            let resumed = Player { index: p.index, phase: p.phase, paused: false };
            &&& (p2, a) == proceed_spec(resumed, catalog)
            &&& !f2.turn
            &&& f2.previous == f.previous
            &&& f2.next == f.next
        }),
{
}

/// Law: a navigation request raised while paused takes effect without an
/// explicit resume first — the step leaves the paused state, moves the
/// cursor with wraparound, and clears both navigation flags.
pub proof fn lemma_navigation_escapes_pause(p: Player, f: EventFlags, catalog: Seq<Music>)
    requires
        p.paused,
        !f.turn,
        f.previous || f.next,
    ensures
        ({
            let (p2, f2, a) = step_spec(p, f, catalog);
            &&& !p2.paused
            &&& p2.phase == Phase::Start
            &&& !f2.previous
            &&& !f2.next
            &&& f.previous ==> p2.index == prev_of(p.index, catalog.len() as usize) && a == (
                StepAction::Switch { dir: MusicInterrupt::Previous })
            &&& !f.previous && f.next ==> p2.index == next_of(p.index, catalog.len() as usize)
                && a == (StepAction::Switch { dir: MusicInterrupt::Next })
        }),
{
}

/// One intensity channel's duty for a pitch: the channel's maximal duty
/// divided by one more than the pitch's residue for the channel's
/// modulus. Deterministic in its arguments, so equal pitches always light
/// equally.
pub fn intensity_duty(freq: u16, max_duty: u16, modulus: u16) -> (r: u16)
    requires
        1 <= modulus,
    ensures
        r as int == max_duty as int / (freq as int % modulus as int + 1),
{
    max_duty / (freq % modulus + 1)
}

/// The three intensity channels' duties for a pitch, with the board's
/// fixed moduli (7, 8 and 9 for the first, second and third channel).
pub fn led_duties(freq: u16, max_a: u16, max_b: u16, max_c: u16) -> (r: (u16, u16, u16))
    ensures
        r.0 as int == max_a as int / (freq as int % 7 + 1),
        r.1 as int == max_b as int / (freq as int % 8 + 1),
        r.2 as int == max_c as int / (freq as int % 9 + 1),
{
    (intensity_duty(freq, max_a, 7), intensity_duty(freq, max_b, 8), intensity_duty(freq, max_c, 9))
}

/// The tone channel's duty while a note sounds: half the maximal duty, an
/// audible square-wave approximation.
pub fn tone_duty(max_duty: u16) -> (r: u16)
    ensures
        r as int == max_duty as int / 2,
{
    max_duty / 2
}

} // verus!
