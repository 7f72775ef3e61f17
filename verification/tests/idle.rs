use trackerclaw::clock::{parse_rfc3339, Timestamp};
use trackerclaw::idle::{check_idle_status, parse_idle_ms, parse_u64, IdleChange, IdleMonitor};
use trackerclaw::pomodoro::Moment;

fn secs(s: u128) -> Moment {
    Moment { nanos: s * 1_000_000_000 }
}

#[test]
fn parses_xprintidle_output() {
    assert_eq!(parse_idle_ms("12345\n"), Some(12345));
    assert_eq!(parse_idle_ms("  +7 "), Some(7));
    assert_eq!(parse_idle_ms(""), None);
    assert_eq!(parse_idle_ms("abc"), None);
    assert_eq!(parse_idle_ms("-3"), None);
}

#[test]
fn parse_u64_matches_std() {
    for s in ["0", "18446744073709551615", "18446744073709551616", "+", "+0", "1 2", "007"] {
        assert_eq!(parse_u64(s), s.parse::<u64>().ok(), "input {:?}", s);
    }
}

#[test]
fn idle_status_lines() {
    assert_eq!(check_idle_status(Some(330_500), 300_000), "Idle: 5m 30s (threshold: 5m)");
    assert_eq!(check_idle_status(Some(61_999), 300_000), "Active: 1m 1s since last input");
    assert_eq!(
        check_idle_status(None, 300_000),
        "Idle detection unavailable. Install xprintidle or ensure X11 is running."
    );
}

#[test]
fn monitor_reports_idle_and_return_once() {
    let mut m = IdleMonitor::new();
    assert_eq!(m.observe(1_000, 300_000, secs(0)), IdleChange::Unchanged);
    assert_eq!(m.observe(300_000, 300_000, secs(10)), IdleChange::BecameIdle);
    assert_eq!(m.observe(400_000, 300_000, secs(100)), IdleChange::Unchanged);
    assert_eq!(m.observe(10, 300_000, secs(10 + 7 * 60 + 59)), IdleChange::CameBack { idle_minutes: 7 });
    assert_eq!(m.observe(10, 300_000, secs(1000)), IdleChange::Unchanged);
    assert!(!m.was_idle);
    assert_eq!(m.idle_since, None);
}

#[test]
fn milestone_announced_once_per_hour() {
    let mut m = IdleMonitor::new();
    let start = "2026-06-19T09:00:00Z".to_string();
    let now = parse_rfc3339("2026-06-19T11:00:30Z").unwrap();
    assert_eq!(m.check_milestone(Some((4, start.clone())), now), Some(120));
    assert_eq!(m.check_milestone(Some((4, start.clone())), now), None);
    let not_yet = parse_rfc3339("2026-06-19T11:01:00Z").unwrap();
    assert_eq!(m.check_milestone(Some((4, start.clone())), not_yet), None);
    assert_eq!(m.notified, vec![(4, 120)]);
    assert_eq!(m.check_milestone(None, now), None);
    assert!(m.notified.is_empty());
    assert_eq!(m.check_milestone(Some((4, start)), now), Some(120));
}

#[test]
fn milestone_skips_unreadable_start_and_first_minutes() {
    let mut m = IdleMonitor::new();
    let now = Timestamp { secs: 3600, nanos: 0 };
    assert_eq!(m.check_milestone(Some((1, "garbage".to_string())), now), None);
    assert_eq!(m.check_started(2, Timestamp { secs: 3600, nanos: 0 }, now), None);
    assert_eq!(m.check_started(2, Timestamp { secs: 0, nanos: 0 }, now), Some(60));
    m.auto_paused();
    assert!(m.notified.is_empty());
}
