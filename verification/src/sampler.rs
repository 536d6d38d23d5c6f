//! The debounce sampler: raw button levels in, one-shot events out.
//!
//! Once per sampling period the sampler compares each line's current level
//! against the level it latched last time, and raises the line's event flag
//! exactly on a low-to-high transition. A held button therefore yields one
//! event per press, however many periods it stays high.

use crate::music::EventFlags;
use vstd::prelude::*;

verus! {

/// The last-sampled level of each input line, owned by the sampler alone.
/// Power-up default: all low (the lines are pulled down).
#[derive(Clone, Copy, Debug, PartialEq, Eq, Structural)]
pub struct DebounceLatches {
    pub previous: bool,
    pub next: bool,
    pub turn: bool,
    pub rgb: bool,
}

/// The levels read from the four input lines in one sampling period.
#[derive(Clone, Copy, Debug, PartialEq, Eq, Structural)]
pub struct ButtonLevels {
    pub previous: bool,
    pub next: bool,
    pub turn: bool,
    pub rgb: bool,
}

/// A low-to-high transition between the latched and the current level.
pub open spec fn rising_edge(latch: bool, level: bool) -> bool {
    !latch && level
}

impl DebounceLatches {
    /// The power-up state: every line latched low.
    pub fn new() -> (l: DebounceLatches)
        ensures
            l == (DebounceLatches { previous: false, next: false, turn: false, rgb: false }),
    {
        DebounceLatches { previous: false, next: false, turn: false, rgb: false }
    }
}

/// One sampling period over all four lines: raise each flag whose line
/// shows a rising edge, leave the other flags as they were, and latch the
/// current levels for the next period. Runs as an indivisible step
/// relative to the flag consumers.
pub fn sample(latches: &mut DebounceLatches, flags: &mut EventFlags, levels: ButtonLevels)
    ensures
        *final(latches) == (DebounceLatches {
            previous: levels.previous,
            next: levels.next,
            turn: levels.turn,
            rgb: levels.rgb,
        }),
        final(flags).previous == (old(flags).previous || rising_edge(
            old(latches).previous,
            levels.previous,
        )),
        final(flags).next == (old(flags).next || rising_edge(old(latches).next, levels.next)),
        final(flags).turn == (old(flags).turn || rising_edge(old(latches).turn, levels.turn)),
        final(flags).rgb == (old(flags).rgb || rising_edge(old(latches).rgb, levels.rgb)),
{
    if !latches.rgb && levels.rgb {
        flags.rgb = true;
    }
    latches.rgb = levels.rgb;

    if !latches.previous && levels.previous {
        flags.previous = true;
    }
    latches.previous = levels.previous;

    if !latches.next && levels.next {
        flags.next = true;
    }
    latches.next = levels.next;

    if !latches.turn && levels.turn {
        flags.turn = true;
    }
    latches.turn = levels.turn;
}

/// The latch state after the sampler has consumed the whole sample
/// sequence `s` on one line, starting from `latch`: the last level seen.
pub open spec fn latch_of(latch: bool, s: Seq<bool>) -> bool {
    if s.len() == 0 {
        latch
    } else {
        s.last()
    }
}

/// How many one-shot events the sampler emits on one line over the sample
/// sequence `s`, starting from latch state `latch`: one per sample that
/// shows a rising edge against its predecessor.
pub open spec fn events_on_line(latch: bool, s: Seq<bool>) -> nat
    decreases s.len(),
{
    if s.len() == 0 {
        0
    } else {
        (if rising_edge(latch, s[0]) {
            1nat
        } else {
            0nat
        }) + events_on_line(s[0], s.drop_first())
    }
}

/// Splitting a sample sequence splits the event count: the second part is
/// sampled starting from the latch the first part leaves behind.
pub proof fn lemma_events_concat(latch: bool, a: Seq<bool>, b: Seq<bool>)
    ensures
        events_on_line(latch, a + b) == events_on_line(latch, a) + events_on_line(
            latch_of(latch, a),
            b,
        ),
    decreases a.len(),
{
    if a.len() == 0 {
        assert(a + b =~= b);
    } else {
        assert((a + b).drop_first() =~= a.drop_first() + b);
        lemma_events_concat(a[0], a.drop_first(), b);
    }
}

/// Law (one event per press): a run of consecutive high samples emits
/// exactly one event when the line was low before it, and none when the
/// line was already high — regardless of the run's length.
pub proof fn lemma_high_run(latch: bool, s: Seq<bool>)
    requires
        forall|i: int| 0 <= i < s.len() ==> s[i],
    ensures
        events_on_line(latch, s) == if s.len() > 0 && !latch {
            1nat
        } else {
            0nat
        },
    decreases s.len(),
{
    if s.len() > 0 {
        assert(s[0]);
        lemma_high_run(s[0], s.drop_first());
    }
}

/// Law (no event without a press): a run of low samples emits no event at
/// all, and leaves the latch low.
pub proof fn lemma_low_run(latch: bool, s: Seq<bool>)
    requires
        forall|i: int| 0 <= i < s.len() ==> !s[i],
    ensures
        events_on_line(latch, s) == 0,
        latch_of(latch, s) == (if s.len() == 0 {
            latch
        } else {
            false
        }),
    decreases s.len(),
{
    if s.len() > 0 {
        assert(!s[0]);
        lemma_low_run(s[0], s.drop_first());
    }
}

/// Law (one event per maximal run, in place): when `s[lo..hi)` is a
/// maximal run of high samples — all high, entered from a low sample or
/// from the power-up latch, and ended by a low sample or by the end of
/// sampling — the whole line's event count splits into the events before
/// the run, exactly one event for the run itself whatever its length, and
/// the events after it.
pub proof fn lemma_one_event_per_maximal_run(s: Seq<bool>, lo: int, hi: int)
    requires
        0 <= lo < hi <= s.len(),
        forall|i: int| lo <= i < hi ==> s[i],
        lo > 0 ==> !s[lo - 1],
        hi < s.len() ==> !s[hi],
    ensures
        events_on_line(false, s) == events_on_line(false, s.take(lo)) + 1 + events_on_line(
            true,
            s.skip(hi),
        ),
{
    let a = s.take(lo);
    let run = s.subrange(lo, hi);
    let b = s.skip(hi);
    assert(s =~= a + (run + b));
    lemma_events_concat(false, a, run + b);
    if lo > 0 {
        assert(a.last() == s[lo - 1]);
    }
    assert(latch_of(false, a) == false);
    lemma_events_concat(false, run, b);
    lemma_high_run(false, run);
    assert(run.last() == s[hi - 1]);
    assert(latch_of(false, run) == true);
}

/// Appending one sample adds one event exactly when it rises against the
/// latch the earlier samples left behind.
pub proof fn lemma_events_snoc(latch: bool, s: Seq<bool>, v: bool)
    ensures
        events_on_line(latch, s.push(v)) == events_on_line(latch, s) + (
        if rising_edge(latch_of(latch, s), v) {
            1nat
        } else {
            0nat
        }),
    decreases s.len(),
{
    if s.len() == 0 {
        assert(s.push(v)[0] == v);
        assert(s.push(v).drop_first() =~= Seq::<bool>::empty());
        assert(events_on_line(v, Seq::<bool>::empty()) == 0);
        assert(events_on_line(latch, s.push(v)) == (if rising_edge(latch, v) {
            1nat
        } else {
            0nat
        }));
    } else {
        assert(s.push(v)[0] == s[0]);
        assert(s.push(v).drop_first() =~= s.drop_first().push(v));
        assert(events_on_line(latch, s.push(v)) == (if rising_edge(latch, s[0]) {
            1nat
        } else {
            0nat
        }) + events_on_line(s[0], s.drop_first().push(v)));
        lemma_events_snoc(s[0], s.drop_first(), v);
        if s.len() == 1 {
            assert(latch_of(s[0], s.drop_first()) == s[0]);
            assert(latch_of(latch, s) == s[0]);
        } else {
            assert(s.drop_first().last() == s.last());
            assert(latch_of(s[0], s.drop_first()) == latch_of(latch, s));
        }
        assert(events_on_line(latch, s) == (if rising_edge(latch, s[0]) {
            1nat
        } else {
            0nat
        }) + events_on_line(s[0], s.drop_first()));
    }
}

/// Run the debounce latch over a whole line of raw samples, starting from
/// the power-up latch (low), and count the one-shot events emitted.
pub fn count_line_events(levels: &Vec<bool>) -> (r: usize)
    ensures
        r == events_on_line(false, levels@),
{
    let mut latch: bool = false;
    let mut count: usize = 0;
    let mut i: usize = 0;
    while i < levels.len()
        invariant
            i <= levels@.len(),
            count == events_on_line(false, levels@.take(i as int)),
            latch == latch_of(false, levels@.take(i as int)),
            count <= i,
        decreases levels@.len() - i,
    {
        let level: bool = levels[i];
        proof {
            lemma_events_snoc(false, levels@.take(i as int), level);
            assert(levels@.take(i as int).push(level) =~= levels@.take(i + 1));
        }
        if !latch && level {
            count = count + 1;
        }
        latch = level;
        i = i + 1;
    }
    proof {
        assert(levels@.take(levels@.len() as int) =~= levels@);
    }
    count
}

} // verus!
