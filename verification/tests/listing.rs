use trackerclaw::entries::Entry;
use trackerclaw::listing::{
    entry_detail_lines, report_lines, today_lines, user_report_lines, user_table_lines,
    week_day_lines,
};

fn entry(id: i64, user: Option<i64>, name: &str, dur: Option<i64>, tags: Option<&str>) -> Entry {
    Entry {
        id,
        name: name.to_string(),
        tags: tags.map(|t| t.to_string()),
        project_id: None,
        user_id: user,
        started_at: "2026-06-19T09:00:00+00:00".to_string(),
        ended_at: dur.map(|_| "2026-06-19T10:00:00+00:00".to_string()),
        duration_seconds: dur,
    }
}

#[test]
fn today_table() {
    assert_eq!(today_lines(&vec![]), vec!["No entries today.".to_string()]);
    let lines = today_lines(&vec![entry(1, Some(1), "write", Some(90), Some("docs")), entry(2, Some(1), "open", None, None)]);
    assert_eq!(lines.len(), 3);
    assert_eq!(lines[0], format!("{:<30} {:<10} TAGS", "NAME", "DURATION"));
    assert_eq!(lines[1], format!("{:<30} {: <10} {}", "write", "90s", "docs"));
    assert_eq!(lines[2], format!("{:<30} {: <10} {}", "open", "0s", "-"));
}

#[test]
fn entry_details() {
    let e = entry(5, Some(1), "write", Some(3600), None);
    let lines = entry_detail_lines(5, Some(&e));
    assert_eq!(
        lines,
        vec![
            "Entry 5:",
            "  Name:     write",
            "  Tags:     -",
            "  Started:  2026-06-19T09:00:00+00:00",
            "  Ended:    2026-06-19T10:00:00+00:00",
            "  Duration: 3600s",
        ]
    );
    let open = entry(6, Some(1), "run", None, Some("x"));
    let lines = entry_detail_lines(6, Some(&open));
    assert_eq!(lines[4], "  Ended:    (running)");
    assert_eq!(lines[5], "  Duration: -s");
    assert_eq!(entry_detail_lines(9, None), vec!["Entry 9 not found."]);
}

fn hours(d: i64) -> String {
    format!("{:.1}", d as f64 / 3600.0)
}

fn with_hours(es: Vec<Entry>) -> Vec<(Entry, String)> {
    es.into_iter().map(|e| {
        let h = hours(e.duration_seconds.unwrap_or(0));
        (e, h)
    }).collect()
}

#[test]
fn week_day_for_member_and_admin() {
    let es = vec![
        entry(1, Some(1), "mine", Some(5400), Some("rust")),
        entry(2, Some(2), "theirs", Some(600), None),
    ];
    let lines = week_day_lines("2026-06-19", with_hours(es.clone()), &hours(5400), 1, false);
    assert_eq!(lines, vec!["2026-06-19 \u{2014} total 1.5h", "  \u{2022} mine (1.5h) [rust]"]);
    let lines = week_day_lines("2026-06-19", with_hours(es.clone()), &hours(0), 3, false);
    assert!(lines.is_empty());
    let lines = week_day_lines("2026-06-19", with_hours(es), &hours(6000), 3, true);
    assert_eq!(lines.len(), 3);
    assert_eq!(lines[0], "2026-06-19 \u{2014} total 1.7h");
    assert_eq!(lines[2], "  \u{2022} theirs (10m) [-]");
    let lines = week_day_lines("2026-06-20", vec![], &hours(0), 3, true);
    assert_eq!(lines, vec!["2026-06-20 \u{2014} total 0s"]);
}

#[test]
fn report_text() {
    assert_eq!(report_lines(None, 7, &vec![], "0.0"), vec!["No entries found."]);
    let es = vec![entry(1, Some(1), "a", Some(5400), Some("rust")), entry(2, Some(1), "b", None, None)];
    let lines = report_lines(Some("rust"), 7, &es, &hours(5400));
    assert_eq!(lines[0], "Report for project 'rust' (last 7 days)");
    assert_eq!(lines[1], "Total tracked time: 5400s (~1.5h)");
    assert_eq!(lines[2], "");
    assert_eq!(lines[3], format!("{:<30} {:<10} {}", "NAME", "DURATION", "TAGS"));
    assert_eq!(lines[4], format!("{:<30} {: <10}s {}", "a", 5400, "rust"));
    assert_eq!(lines[5], format!("{:<30} {: <10}s {}", "b", 0, "-"));
    let lines = report_lines(None, 30, &vec![entry(3, None, "c", Some(-180), None)], &hours(-180));
    assert_eq!(lines[0], "Report (last 30 days)");
    assert_eq!(lines[1], "Total tracked time: -180s (~-0.1h)");
}

#[test]
fn users_table_and_report() {
    assert_eq!(user_table_lines(&vec![]), vec!["No users found."]);
    let lines = user_table_lines(&vec![(1, "alice".to_string(), "admin".to_string())]);
    assert_eq!(lines[0], format!("{: <5} {: <20} {: <10}", "ID", "NAME", "ROLE"));
    assert_eq!(lines[1], format!("{:<5} {:<20} {:<10}", 1, "alice", "admin"));
    let lines = user_report_lines("alice", "admin", 7, 3, &format!("{:.2}", 5400.0 / 3600.0));
    assert_eq!(
        lines,
        vec!["Report for alice (role: admin)", "Entries in last 7 days: 3", "Total time: 1.50 hours"]
    );
}
