use trackerclaw::pomodoro::session_outcome;
use trackerclaw::pomodoro::{Moment, Phase, PomodoroState, Span};

fn at(secs: u128, millis: u128) -> Moment {
    Moment { nanos: secs * 1_000_000_000 + millis * 1_000_000 }
}

#[test]
fn fmt_time_formats_mm_ss() {
    assert_eq!(PomodoroState::fmt_time(Span::from_secs(0)), "00:00");
    assert_eq!(PomodoroState::fmt_time(Span::from_secs(65)), "01:05");
    assert_eq!(PomodoroState::fmt_time(Span::from_secs(1500)), "25:00");
}

#[test]
fn zero_length_work_phase_completes_immediately() {
    let mut s = PomodoroState::with_durations("t".into(), 0, 300, at(0, 0));
    s.tick(at(0, 0));
    assert!(s.done);
    assert_eq!(s.remaining, Span::zero());
    assert_eq!(s.phase, Phase::Work);
}

#[test]
fn work_to_break_transition_resets_state() {
    let mut s = PomodoroState::with_durations("t".into(), 0, 0, at(0, 0));
    s.tick(at(0, 0));
    assert!(s.done);
    s.transition_to_break(at(0, 0));
    assert_eq!(s.phase, Phase::Break);
    assert!(!s.done);
    assert!(s.running);
    s.tick(at(0, 0));
    assert!(s.done, "zero-length break completes immediately");
}

#[test]
fn pause_freezes_remaining_and_resume_rebases() {
    let mut s = PomodoroState::with_durations("t".into(), 60, 60, at(0, 0));
    s.tick(at(0, 20));
    let remaining_at_pause = s.remaining;
    s.toggle_pause(at(0, 20));
    assert!(!s.running);
    s.tick(at(0, 40)); // no-op while paused
    assert_eq!(
        s.remaining, remaining_at_pause,
        "paused time must not consume remaining"
    );

    s.toggle_pause(at(0, 40));
    assert!(s.running);
    s.tick(at(0, 60));
    // After resume, only 20ms more have been consumed.
    assert!(s.remaining.nanos <= remaining_at_pause.nanos);
    assert_eq!(remaining_at_pause.nanos - s.remaining.nanos, 20_000_000);
}

#[test]
fn done_state_is_sticky() {
    let mut s = PomodoroState::with_durations("t".into(), 0, 60, at(0, 0));
    s.tick(at(0, 0));
    let r = s.remaining;
    s.tick(at(5, 0));
    assert_eq!(s.remaining, r);
    assert!(s.done);
}

#[test]
fn focused_seconds_counts_down_from_total() {
    let mut s = PomodoroState::with_durations("t".into(), 120, 60, at(0, 0));
    assert_eq!(s.focused_seconds(), 0);
    s.remaining = Span::from_secs(30);
    assert_eq!(s.focused_seconds(), 90);
}

#[test]
fn new_uses_minutes_and_logs_work_length_after_break() {
    let mut s = PomodoroState::new("deep".into(), 25, 5, at(100, 0));
    assert_eq!(s.total, Span::from_secs(1500));
    s.tick(at(100 + 600, 0));
    assert_eq!(s.focused_seconds(), 600);
    assert_eq!(s.seconds_to_log(), 600);
    s.tick(at(100 + 1500, 0));
    assert!(s.done);
    s.transition_to_break(at(1600, 0));
    assert_eq!(s.total, Span::from_secs(300));
    assert_eq!(s.seconds_to_log(), 1500);
}

#[test]
fn fmt_time_long_minutes() {
    assert_eq!(PomodoroState::fmt_time(Span::from_secs(6000)), "100:00");
    assert_eq!(PomodoroState::fmt_time(Span { nanos: 59_999_999_999 }), "00:59");
}

#[test]
fn space_moves_to_break_or_pauses() {
    let mut s = PomodoroState::with_durations("t".into(), 0, 60, at(0, 0));
    assert_eq!(s.hint(), "[Space] pause/resume  [q] quit");
    assert_eq!(s.phase_label(), "\u{1F345} FOCUS");
    s.tick(at(1, 0));
    assert_eq!(s.hint(), "Press [Space] to start break, [q] to quit");
    s.on_space(at(1, 0));
    assert_eq!(s.phase, Phase::Break);
    assert_eq!(s.phase_label(), "\u{2615} BREAK");
    s.on_space(at(2, 0));
    assert!(!s.running);
    assert_eq!(s.hint(), "[Space] resume  [q] quit");
    s.on_space(at(3, 0));
    assert!(s.running);
    s.tick(at(100, 0));
    assert_eq!(s.hint(), "Break done! Press [q] to quit");
}

#[test]
fn session_logged_from_a_minute_on() {
    let (name, msg) = session_outcome("deep work", 1500);
    assert_eq!(name.as_deref(), Some("Pomodoro: deep work"));
    assert_eq!(msg, "Logged Pomodoro session (1500s)");
    let (name, msg) = session_outcome("deep work", 59);
    assert_eq!(name, None);
    assert_eq!(msg, "Pomodoro too short to log (59s focused).");
}
