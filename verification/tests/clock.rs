use trackerclaw::clock::{
    elapsed_clamped, ical_datetime, parse_date, parse_rfc3339, utc_date, whole_seconds_between,
    Timestamp,
};

#[test]
fn parses_rfc3339() {
    let dt = parse_date("2026-06-19T09:30:00Z").unwrap();
    assert_eq!(dt.to_rfc3339(), "2026-06-19T09:30:00+00:00");
}

#[test]
fn parses_date_only() {
    let dt = parse_date("2026-06-19").unwrap();
    assert_eq!(dt.to_rfc3339(), "2026-06-19T00:00:00+00:00");
}

#[test]
fn rejects_garbage() {
    assert!(parse_date("not-a-date").is_err());
}

#[test]
fn ical_datetime_format() {
    assert_eq!(ical_datetime("2026-06-19T09:30:00+00:00"), "20260619T093000Z");
    assert_eq!(ical_datetime("2026-06-19T09:30:00+02:00"), "20260619T073000Z");
}

#[test]
fn ical_datetime_keeps_unparsable_text() {
    assert_eq!(ical_datetime("yesterday"), "yesterday");
}

#[test]
fn garbage_date_message_names_the_input() {
    let err = parse_date("someday").unwrap_err();
    assert_eq!(err.message(), "Invalid date format: 'someday'. Use YYYY-MM-DD or RFC3339.");
}

#[test]
fn parse_keeps_the_instant_of_any_offset() {
    let t = parse_rfc3339("2026-06-19T11:30:00+02:00").unwrap();
    assert_eq!(t.secs, 1781861400);
    assert_eq!(t.nanos, 0);
    assert_eq!(t.to_rfc3339(), "2026-06-19T09:30:00+00:00");
    assert!(parse_rfc3339("2026-06-19").is_none());
}

#[test]
fn date_only_is_utc_midnight() {
    let t = parse_date("1970-01-02").unwrap();
    assert_eq!(t, Timestamp { secs: 86400, nanos: 0 });
}

#[test]
fn seconds_between_truncates_toward_zero() {
    let a = Timestamp { secs: 100, nanos: 500_000_000 };
    let b = Timestamp { secs: 90, nanos: 900_000_000 };
    assert_eq!(whole_seconds_between(&a, &b), 9);
    assert_eq!(whole_seconds_between(&b, &a), -9);
    assert_eq!(whole_seconds_between(&a, &a), 0);
}

#[test]
fn elapsed_never_negative() {
    let start = Timestamp { secs: 1000, nanos: 0 };
    let earlier = Timestamp { secs: 400, nanos: 0 };
    let later = Timestamp { secs: 1600, nanos: 0 };
    assert_eq!(elapsed_clamped(&earlier, &start), 0);
    assert_eq!(elapsed_clamped(&later, &start), 600);
}

#[test]
fn plus_seconds_moves_the_instant() {
    let t = Timestamp { secs: 1000, nanos: 7 };
    assert_eq!(t.plus_seconds(-1000), Some(Timestamp { secs: 0, nanos: 7 }));
    assert_eq!(t.plus_seconds(i64::MAX), None);
}

#[test]
fn utc_date_of_rfc3339() {
    assert_eq!(utc_date("2026-06-19T23:30:00-02:00"), "2026-06-20");
    assert_eq!(utc_date("garbage"), "garbage");
}

#[test]
fn rfc3339_out_of_range_is_none() {
    let t = Timestamp { secs: i64::MAX, nanos: 0 };
    assert_eq!(t.rfc3339(), None);
    let ok = Timestamp { secs: 0, nanos: 0 };
    assert_eq!(ok.rfc3339().unwrap(), "1970-01-01T00:00:00+00:00");
}
