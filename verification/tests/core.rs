use music_board::music::{
    next_music, previous_music, request_rgb_toggle, turn_music, EventFlags, Music, MusicInterrupt,
    RST,
};
use music_board::player::{
    intensity_duty, led_duties, next_index, prev_index, tone_duty, Phase, Player, StepAction,
};
use music_board::rgb::{service_rgb, switch_rgb_led, RgbAction, RgbState};
use music_board::sampler::{count_line_events, sample, ButtonLevels, DebounceLatches};

fn levels(previous: bool, next: bool, turn: bool, rgb: bool) -> ButtonLevels {
    ButtonLevels { previous, next, turn, rgb }
}

fn track(name: &str, melody: Vec<(u16, u16)>) -> Music {
    Music { name: String::from(name), melody }
}

// A catalog of two tracks: three notes, then two notes.
fn two_track_catalog() -> Vec<Music> {
    vec![
        track("TrackA", vec![(262, 40), (294, 40), (330, 40)]),
        track("TrackB", vec![(392, 30), (440, 30)]),
    ]
}

#[test]
fn held_press_yields_one_event() {
    // One maximal run of high samples, however long, is one event.
    assert_eq!(count_line_events(&vec![false, true, true, true, true, true]), 1);
    assert_eq!(count_line_events(&vec![true]), 1);
    assert_eq!(count_line_events(&vec![true; 50]), 1);
}

#[test]
fn low_samples_yield_no_event() {
    assert_eq!(count_line_events(&vec![]), 0);
    assert_eq!(count_line_events(&vec![false; 20]), 0);
}

#[test]
fn each_separate_press_yields_one_event() {
    // Three maximal high runs, three events.
    assert_eq!(
        count_line_events(&vec![true, true, false, false, true, false, true, true]),
        3
    );
}

#[test]
fn sampler_raises_flag_on_rising_edge_only() {
    let mut latches = DebounceLatches::new();
    let mut flags = EventFlags::new();

    sample(&mut latches, &mut flags, levels(true, false, false, false));
    assert!(flags.previous && !flags.next && !flags.turn && !flags.rgb);

    // The line stays high: no further event for the same press.
    flags = EventFlags::new();
    sample(&mut latches, &mut flags, levels(true, false, true, false));
    assert!(!flags.previous);
    assert!(flags.turn);

    // Release, then press again: a new event.
    sample(&mut latches, &mut flags, levels(false, false, true, false));
    sample(&mut latches, &mut flags, levels(true, false, true, false));
    assert!(flags.previous);
}

#[test]
fn sampler_never_clears_a_pending_flag() {
    let mut latches = DebounceLatches::new();
    let mut flags = EventFlags::new();
    sample(&mut latches, &mut flags, levels(false, true, false, false));
    assert!(flags.next);
    // Periods with the button released must leave the pending event alone.
    sample(&mut latches, &mut flags, levels(false, false, false, false));
    sample(&mut latches, &mut flags, levels(false, false, false, false));
    assert!(flags.next);
}

#[test]
fn repeated_sets_coalesce() {
    let mut once = EventFlags::new();
    previous_music(&mut once);
    let mut thrice = EventFlags::new();
    previous_music(&mut thrice);
    previous_music(&mut thrice);
    previous_music(&mut thrice);
    assert_eq!(once, thrice);

    let mut f = EventFlags::new();
    turn_music(&mut f);
    turn_music(&mut f);
    assert!(f.turn);
    assert!(f.take_turn());
    // Two presses before consumption were one pending event: nothing left.
    assert!(!f.take_turn());
}

#[test]
fn simultaneous_navigation_previous_wins() {
    let mut f = EventFlags::new();
    previous_music(&mut f);
    next_music(&mut f);
    assert_eq!(f.check_should_interrupt(), Err(MusicInterrupt::Previous));
    // The stale "next" was discarded: exactly one navigation action.
    assert_eq!(f.check_should_interrupt(), Ok(()));
}

#[test]
fn navigation_next_alone() {
    let mut f = EventFlags::new();
    next_music(&mut f);
    assert_eq!(f.check_should_interrupt(), Err(MusicInterrupt::Next));
    assert_eq!(f.check_should_interrupt(), Ok(()));
}

#[test]
fn cursor_wraps_in_both_directions() {
    assert_eq!(next_index(0, 3), 1);
    assert_eq!(next_index(2, 3), 0);
    assert_eq!(prev_index(0, 4), 3);
    assert_eq!(prev_index(1, 4), 0);

    // "next" three times in a catalog of three returns to the start.
    for start in 0..3 {
        let mut i = start;
        for _ in 0..3 {
            i = next_index(i, 3);
        }
        assert_eq!(i, start);
        let mut j = start;
        for _ in 0..3 {
            j = prev_index(j, 3);
        }
        assert_eq!(j, start);
    }
}

#[test]
fn indicator_two_serviced_presses_preserve_parity() {
    let mut flags = EventFlags::new();
    let mut state = RgbState::new();
    assert!(!state.on);

    request_rgb_toggle(&mut flags);
    assert_eq!(service_rgb(&mut flags, &mut state), Some(RgbAction::Enable));
    assert!(state.on);

    request_rgb_toggle(&mut flags);
    assert_eq!(service_rgb(&mut flags, &mut state), Some(RgbAction::Disable));
    assert!(!state.on);
}

#[test]
fn indicator_presses_before_service_coalesce() {
    let mut flags = EventFlags::new();
    let mut state = RgbState::new();
    // Two presses before the handler runs are one pending event: one toggle.
    request_rgb_toggle(&mut flags);
    request_rgb_toggle(&mut flags);
    assert_eq!(service_rgb(&mut flags, &mut state), Some(RgbAction::Enable));
    assert!(state.on);
    assert_eq!(service_rgb(&mut flags, &mut state), None);
    assert!(state.on);
}

#[test]
fn switch_rgb_led_alternates() {
    let mut state = RgbState::new();
    assert_eq!(switch_rgb_led(&mut state), RgbAction::Enable);
    assert_eq!(switch_rgb_led(&mut state), RgbAction::Disable);
    assert_eq!(switch_rgb_led(&mut state), RgbAction::Enable);
}

#[test]
fn track_plays_to_completion_and_advances() {
    let catalog = two_track_catalog();
    let mut flags = EventFlags::new();
    let mut p = Player::new();
    assert_eq!(p.index, 0);

    assert_eq!(p.step(&catalog, &mut flags), StepAction::LeadIn);
    assert_eq!(p.step(&catalog, &mut flags), StepAction::Play { freq: 262, ms: 40 });
    assert_eq!(p.step(&catalog, &mut flags), StepAction::Play { freq: 294, ms: 40 });
    assert_eq!(p.step(&catalog, &mut flags), StepAction::Play { freq: 330, ms: 40 });
    assert_eq!(p.step(&catalog, &mut flags), StepAction::TrackGap);
    assert_eq!(p.step(&catalog, &mut flags), StepAction::TrackDone);
    // Natural completion moved the cursor forward; the next track begins.
    assert_eq!(p.index, 1);
    assert_eq!(p.step(&catalog, &mut flags), StepAction::LeadIn);
    assert_eq!(p.step(&catalog, &mut flags), StepAction::Play { freq: 392, ms: 30 });
}

#[test]
fn next_during_second_note_aborts_track() {
    let catalog = two_track_catalog();
    let mut flags = EventFlags::new();
    let mut p = Player::new();

    assert_eq!(p.step(&catalog, &mut flags), StepAction::LeadIn);
    assert_eq!(p.step(&catalog, &mut flags), StepAction::Play { freq: 262, ms: 40 });
    assert_eq!(p.step(&catalog, &mut flags), StepAction::Play { freq: 294, ms: 40 });
    // The "next" press arrives while the second note sounds.
    next_music(&mut flags);
    let a = p.step(&catalog, &mut flags);
    // The third note is never played: the track is aborted at once.
    assert_eq!(a, StepAction::Switch { dir: MusicInterrupt::Next });
    assert_eq!(p.index, 1);
    assert_eq!(p.step(&catalog, &mut flags), StepAction::LeadIn);
    assert_eq!(p.step(&catalog, &mut flags), StepAction::Play { freq: 392, ms: 30 });
}

#[test]
fn previous_on_single_track_wraps_to_itself() {
    let catalog = vec![track("Only", vec![(440, 20), (494, 20)])];
    let mut flags = EventFlags::new();
    let mut p = Player::new();

    assert_eq!(p.step(&catalog, &mut flags), StepAction::LeadIn);
    assert_eq!(p.step(&catalog, &mut flags), StepAction::Play { freq: 440, ms: 20 });
    previous_music(&mut flags);
    let a = p.step(&catalog, &mut flags);
    assert_eq!(a, StepAction::Switch { dir: MusicInterrupt::Previous });
    assert_eq!(p.index, 0);
}

#[test]
fn pause_suspends_until_resume() {
    let catalog = two_track_catalog();
    let mut flags = EventFlags::new();
    let mut p = Player::new();

    assert_eq!(p.step(&catalog, &mut flags), StepAction::LeadIn);
    assert_eq!(p.step(&catalog, &mut flags), StepAction::Play { freq: 262, ms: 40 });
    turn_music(&mut flags);
    // The pause takes effect at the note boundary, before the next note.
    assert_eq!(p.step(&catalog, &mut flags), StepAction::Sleep);
    assert!(p.paused);

    // Paused with nothing pending: the controller only waits, the state
    // stands still, no note sounds and no duration elapses.
    let before = p;
    assert_eq!(p.step(&catalog, &mut flags), StepAction::Sleep);
    assert_eq!(p.step(&catalog, &mut flags), StepAction::Sleep);
    assert_eq!(p, before);

    // Resume: the note that was about to sound now sounds.
    turn_music(&mut flags);
    assert_eq!(p.step(&catalog, &mut flags), StepAction::Play { freq: 294, ms: 40 });
    assert!(!p.paused);
}

#[test]
fn navigation_escapes_pause_without_resume() {
    let catalog = two_track_catalog();
    let mut flags = EventFlags::new();
    let mut p = Player::new();

    assert_eq!(p.step(&catalog, &mut flags), StepAction::LeadIn);
    assert_eq!(p.step(&catalog, &mut flags), StepAction::Play { freq: 262, ms: 40 });
    turn_music(&mut flags);
    assert_eq!(p.step(&catalog, &mut flags), StepAction::Sleep);
    assert!(p.paused);

    next_music(&mut flags);
    let a = p.step(&catalog, &mut flags);
    assert_eq!(a, StepAction::Switch { dir: MusicInterrupt::Next });
    assert!(!p.paused);
    assert_eq!(p.index, 1);
}

#[test]
fn rest_keeps_the_tone_silent() {
    let catalog = vec![track("WithRest", vec![(330, 25), (RST, 50), (392, 25)])];
    let mut flags = EventFlags::new();
    let mut p = Player::new();

    assert_eq!(p.step(&catalog, &mut flags), StepAction::LeadIn);
    assert_eq!(p.step(&catalog, &mut flags), StepAction::Play { freq: 330, ms: 25 });
    assert_eq!(p.step(&catalog, &mut flags), StepAction::Rest { ms: 50 });
    assert_eq!(p.step(&catalog, &mut flags), StepAction::Play { freq: 392, ms: 25 });
}

#[test]
fn pause_at_final_check_then_resume_advances() {
    let catalog = vec![track("Short", vec![(262, 10)]), track("Other", vec![(294, 10)])];
    let mut flags = EventFlags::new();
    let mut p = Player::new();

    assert_eq!(p.step(&catalog, &mut flags), StepAction::LeadIn);
    assert_eq!(p.step(&catalog, &mut flags), StepAction::Play { freq: 262, ms: 10 });
    assert_eq!(p.step(&catalog, &mut flags), StepAction::TrackGap);
    turn_music(&mut flags);
    assert_eq!(p.step(&catalog, &mut flags), StepAction::Sleep);
    assert!(p.paused);
    turn_music(&mut flags);
    assert_eq!(p.step(&catalog, &mut flags), StepAction::TrackDone);
    assert_eq!(p.index, 1);
}

#[test]
fn phase_starts_at_first_note() {
    let p = Player::new();
    assert_eq!(p.phase, Phase::Start);
    assert!(!p.paused);
}

#[test]
fn duty_mapping_is_exact_and_deterministic() {
    // 440 % 7 == 6, 440 % 8 == 0, 440 % 9 == 8.
    assert_eq!(led_duties(440, 700, 800, 900), (100, 800, 100));
    // A rest (pitch 0) still drives the intensity channels deterministically.
    assert_eq!(led_duties(RST, 700, 800, 900), (700, 800, 900));
    assert_eq!(intensity_duty(262, 1000, 7), 1000 / (262 % 7 + 1));
    assert_eq!(led_duties(440, 700, 800, 900), led_duties(440, 700, 800, 900));
    assert_eq!(tone_duty(999), 499);
    assert_eq!(tone_duty(0), 0);
}
