use trackerclaw::entries::Entry;
use trackerclaw::export::{csv_header, csv_record, ical_calendar, parse_export_format, ExportFormat};

fn entry(id: i64, name: &str, start: &str, end: Option<&str>, dur: Option<i64>, tags: Option<&str>) -> Entry {
    Entry {
        id,
        name: name.to_string(),
        tags: tags.map(|t| t.to_string()),
        project_id: None,
        user_id: Some(1),
        started_at: start.to_string(),
        ended_at: end.map(|s| s.to_string()),
        duration_seconds: dur,
    }
}

#[test]
fn formats_by_name() {
    assert_eq!(parse_export_format("json"), Ok(ExportFormat::Json));
    assert_eq!(parse_export_format("csv"), Ok(ExportFormat::Csv));
    assert_eq!(parse_export_format("ical"), Ok(ExportFormat::Ical));
    assert_eq!(
        parse_export_format("ics"),
        Err("Unknown format: ics. Use json, csv, or ical.".to_string())
    );
}

#[test]
fn csv_rows() {
    assert_eq!(csv_header(), vec!["name", "started_at", "ended_at", "duration_seconds", "tags"]);
    let done = entry(1, "task two", "2026-06-19T09:00:00+00:00", Some("2026-06-19T09:30:00+00:00"), Some(1800), Some("rust"));
    assert_eq!(
        csv_record(&done),
        vec!["task two", "2026-06-19T09:00:00+00:00", "2026-06-19T09:30:00+00:00", "1800", "rust"]
    );
    let running = entry(2, "open", "2026-06-19T10:00:00+00:00", None, None, None);
    assert_eq!(csv_record(&running), vec!["open", "2026-06-19T10:00:00+00:00", "", "0", ""]);
}

#[test]
fn export_ical_produces_valid_datetimes() {
    let es = vec![
        entry(1, "task one, with comma", "2026-06-19T09:00:00+02:00", Some("2026-06-19T09:30:00+02:00"), Some(1800), Some("a;b")),
        entry(2, "open", "2026-06-19T10:00:00+00:00", None, None, None),
    ];
    let content = ical_calendar(&es);
    assert!(content.contains("BEGIN:VCALENDAR"));
    assert!(content.contains("DTSTART:2"));
    assert!(content.contains("Z\r\n"));
    assert!(!content.contains("+00:00"), "raw RFC3339 offset leaked into iCal");
    assert!(content.contains("SUMMARY:task one\\, with comma"));
    let expected = "BEGIN:VCALENDAR\r\nVERSION:2.0\r\nPRODID:-//TrackerClaw//EN\r\n\
BEGIN:VEVENT\r\nUID:trackerclaw-1@localhost\r\nSUMMARY:task one\\, with comma\r\n\
DTSTART:20260619T070000Z\r\nDTEND:20260619T073000Z\r\n\
DESCRIPTION:task one\\, with comma (1800s)\r\nCATEGORIES:a\\;b\r\nEND:VEVENT\r\n\
BEGIN:VEVENT\r\nUID:trackerclaw-2@localhost\r\nSUMMARY:open\r\n\
DTSTART:20260619T100000Z\r\nDTEND:20260619T100000Z\r\n\
DESCRIPTION:open (0s)\r\nEND:VEVENT\r\nEND:VCALENDAR\r\n";
    assert_eq!(content, expected);
}

#[test]
fn empty_calendar() {
    assert_eq!(
        ical_calendar(&vec![]),
        "BEGIN:VCALENDAR\r\nVERSION:2.0\r\nPRODID:-//TrackerClaw//EN\r\nEND:VCALENDAR\r\n"
    );
}
