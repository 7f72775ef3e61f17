use trackerclaw::calendar::{calendar_day_lines, calendar_day_totals, calendar_title, totals_by_day};
use trackerclaw::entries::Entry;
use trackerclaw::calendar::{days_in_month, format_duration_short};

/// The label as the tracker prints it: the hours come from the f64 value.
fn short(seconds: i64) -> String {
    format_duration_short(seconds, &format!("{:.1}", seconds as f64 / 3600.0))
}

#[test]
fn format_seconds() {
    assert_eq!(short(45), "45s");
}

#[test]
fn format_minutes() {
    assert_eq!(short(300), "5m");
}

#[test]
fn format_hours() {
    assert_eq!(short(5400), "1.5h");
}

#[test]
fn format_duration_edges() {
    assert_eq!(short(0), "0s");
    assert_eq!(short(-5), "-5s");
    assert_eq!(short(59), "59s");
    assert_eq!(short(60), "1m");
    assert_eq!(short(3599), "59m");
    assert_eq!(short(3600), "1.0h");
    assert_eq!(short(36000), "10.0h");
    // 1.05 as f64 lies just above the tie.
    assert_eq!(short(3780), "1.1h");
    assert_eq!(format_duration_short(7200, "whatever"), "whateverh");
    assert_eq!(format_duration_short(120, "ignored"), "2m");
}

#[test]
fn month_lengths() {
    assert_eq!(days_in_month(2026, 6), 30);
    assert_eq!(days_in_month(2026, 2), 28);
    assert_eq!(days_in_month(2024, 2), 29);
    assert_eq!(days_in_month(1900, 2), 28);
    assert_eq!(days_in_month(2000, 2), 29);
    assert_eq!(days_in_month(2026, 12), 31);
}

#[test]
fn month_day_totals_and_lines() {
    let mk = |start: &str, d: Option<i64>| Entry {
        id: 1,
        name: "x".to_string(),
        tags: None,
        project_id: None,
        user_id: Some(1),
        started_at: start.to_string(),
        ended_at: None,
        duration_seconds: d,
    };
    let es = vec![
        mk("2026-06-10T12:00:00Z", Some(3600)),
        mk("2026-06-10T18:00:00Z", Some(1800)),
        mk("2026-06-15T23:30:00-02:00", Some(7200)),
        mk("garbage", Some(99)),
        mk("2026-06-15T01:00:00+00:00", None),
    ];
    let totals = calendar_day_totals(30, &es);
    assert_eq!(totals.len(), 30);
    assert_eq!(totals[9], 5400);
    assert_eq!(totals[14], 7200);
    assert_eq!(totals[0], 0);
    assert_eq!(totals_by_day(3, &vec![(Some(2), 5), (Some(4), 7), (None, 1), (Some(2), -1)]), vec![0, 4, 0]);
    let lines = calendar_day_lines(&totals);
    assert_eq!(lines.len(), 30);
    assert_eq!(lines[0], ("  1 ".to_string(), false));
    assert_eq!(lines[9], (" 10 ".to_string(), true));
    assert_eq!(calendar_title(2026, 6), "  2026-6");
}
