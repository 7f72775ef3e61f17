use trackerclaw::clock::{parse_rfc3339, Timestamp};
use trackerclaw::entries::{
    close_entries, check_delete_allowed, check_deleted, check_entry_access, check_project_delete,
    plan_entry_update, running_seconds, span_seconds, stop_duration, stopped_entry,
    stored_duration, total_duration, visible_entries, Entry, EntryError,
};

fn entry(id: i64, user: Option<i64>, start: &str, end: Option<&str>, dur: Option<i64>) -> Entry {
    Entry {
        id,
        name: format!("task {}", id),
        tags: Some("rust".to_string()),
        project_id: None,
        user_id: user,
        started_at: start.to_string(),
        ended_at: end.map(|s| s.to_string()),
        duration_seconds: dur,
    }
}

#[test]
fn member_sees_only_own_entries_in_order() {
    let all = vec![
        entry(1, Some(1), "2026-06-19T09:00:00Z", None, None),
        entry(2, Some(2), "2026-06-19T09:00:00Z", None, None),
        entry(3, Some(1), "2026-06-19T09:00:00Z", None, None),
        entry(4, None, "2026-06-19T09:00:00Z", None, None),
    ];
    let mine: Vec<i64> = visible_entries(all.clone(), 1, false).iter().map(|e| e.id).collect();
    assert_eq!(mine, vec![1, 3]);
    let admin: Vec<i64> = visible_entries(all, 1, true).iter().map(|e| e.id).collect();
    assert_eq!(admin, vec![1, 2, 3, 4]);
}

#[test]
fn access_refused_for_other_users_entry() {
    let e = entry(7, Some(2), "2026-06-19T09:00:00Z", None, None);
    assert!(check_entry_access(&e, 2, false).is_ok());
    assert!(check_entry_access(&e, 1, true).is_ok());
    let err = check_entry_access(&e, 1, false).unwrap_err();
    assert!(matches!(err, EntryError::NotYours(7)));
    assert_eq!(err.message(), "Entry 7 does not belong to you.");
}

#[test]
fn total_counts_running_entries_as_zero() {
    let es = vec![
        entry(1, None, "x", Some("y"), Some(3600)),
        entry(2, None, "x", None, None),
        entry(3, None, "x", Some("y"), Some(1800)),
    ];
    assert_eq!(total_duration(&es), 5400);
}

#[test]
fn stop_clamps_negative_elapsed_time() {
    let now = parse_rfc3339("2026-06-19T10:00:00Z").unwrap();
    assert_eq!(stop_duration("2026-06-19T09:15:00Z", &now).unwrap(), 2700);
    assert_eq!(stop_duration("2026-06-19T11:00:00Z", &now).unwrap(), 0);
    let err = stop_duration("later", &now).unwrap_err();
    assert_eq!(err.message(), "premature end of input");
}

#[test]
fn stopped_entry_records_end_and_duration() {
    let now = parse_rfc3339("2026-06-19T10:00:00+02:00").unwrap();
    let e = entry(5, Some(1), "2026-06-19T07:00:00Z", None, None);
    let s = stopped_entry(e, &now).unwrap();
    assert_eq!(s.ended_at.as_deref(), Some("2026-06-19T08:00:00+00:00"));
    assert_eq!(s.duration_seconds, Some(3600));
    assert_eq!(s.started_at, "2026-06-19T07:00:00Z");
    assert_eq!(s.id, 5);
    let far = Timestamp { secs: i64::MAX / 2, nanos: 0 };
    let e = entry(6, Some(1), "2026-06-19T07:00:00Z", None, None);
    assert!(matches!(stopped_entry(e, &far), Err(EntryError::TimeOutOfRange)));
}

#[test]
fn negative_insert_duration_is_clamped() {
    assert_eq!(stored_duration(-500), 0);
    assert_eq!(stored_duration(2700), 2700);
}

#[test]
fn running_seconds_of_current_entry() {
    let now = parse_rfc3339("2026-06-19T10:00:10Z").unwrap();
    assert_eq!(running_seconds("2026-06-19T10:00:00Z", &now), 10);
    assert_eq!(running_seconds("2026-06-19T10:00:20Z", &now), -10);
    assert_eq!(running_seconds("nope", &now), 0);
}

#[test]
fn edit_merges_fields_and_recomputes_duration() {
    let stored = entry(3, Some(1), "2026-06-19T08:00:00Z", Some("2026-06-19T10:00:00Z"), Some(7200));
    let u = plan_entry_update(3, false, Some(stored.clone()), Some("new name"), Some("new"), None,
        Some("2026-06-19T11:30:00+01:00")).unwrap();
    assert_eq!(u.name, "new name");
    assert_eq!(u.tags.as_deref(), Some("new"));
    assert_eq!(u.started_at, "2026-06-19T08:00:00+00:00");
    assert_eq!(u.ended_at, "2026-06-19T10:30:00+00:00");
    assert_eq!(u.duration_seconds, 9000);
    let kept = plan_entry_update(3, false, Some(stored), None, None, None, None).unwrap();
    assert_eq!(kept.name, "task 3");
    assert_eq!(kept.tags.as_deref(), Some("rust"));
    assert_eq!(kept.duration_seconds, 7200);
}

#[test]
fn update_entry_rejects_end_before_start() {
    let stored = entry(3, Some(1), "2026-06-19T08:00:00Z", Some("2026-06-19T10:00:00Z"), Some(7200));
    let r = plan_entry_update(3, false, Some(stored), None, None, Some("2026-06-19T11:00:00Z"), None);
    let err = r.err().unwrap();
    assert!(matches!(err, EntryError::EndBeforeStart));
    assert_eq!(err.message(), "ended_at must not be before started_at");
}

#[test]
fn cannot_edit_current_open_or_missing_entry() {
    let open = entry(3, Some(1), "2026-06-19T08:00:00Z", None, None);
    assert!(matches!(plan_entry_update(3, true, Some(open.clone()), None, None, None, None), Err(EntryError::EditCurrent)));
    assert!(matches!(plan_entry_update(3, false, Some(open), None, None, None, None), Err(EntryError::EditOpen)));
    assert!(matches!(plan_entry_update(9, false, None, None, None, None, None), Err(EntryError::NotFound(9))));
    let stored = entry(3, Some(1), "2026-06-19T08:00:00Z", Some("2026-06-19T10:00:00Z"), Some(7200));
    let r = plan_entry_update(3, false, Some(stored), None, None, Some("tomorrow"), None);
    assert!(matches!(r, Err(EntryError::InvalidTime(ref t)) if t == "premature end of input"));
}

#[test]
fn span_seconds_refuses_reversed_times() {
    let a = Timestamp { secs: 100, nanos: 0 };
    let b = Timestamp { secs: 160, nanos: 0 };
    assert_eq!(span_seconds(&a, &b).unwrap(), 60);
    assert_eq!(span_seconds(&a, &a).unwrap(), 0);
    assert!(matches!(span_seconds(&b, &a), Err(EntryError::EndBeforeStart)));
}

#[test]
fn delete_rules() {
    assert!(check_delete_allowed(false).is_ok());
    let err = check_delete_allowed(true).unwrap_err();
    assert_eq!(err.message(), "Cannot delete the currently tracking entry. Stop it first.");
    assert!(check_deleted(4, 1).is_ok());
    let err = check_deleted(4, 0).unwrap_err();
    assert_eq!(err.message(), "Entry 4 not found");
    assert!(check_project_delete(0).is_ok());
    let err = check_project_delete(2).unwrap_err();
    assert_eq!(err.message(), "Cannot delete project with existing time entries.");
}

#[test]
fn error_messages() {
    assert_eq!(EntryError::EditCurrent.message(), "Cannot edit the currently tracking entry. Stop it first.");
    assert_eq!(EntryError::EditOpen.message(), "Cannot edit an open entry. Stop it first.");
    assert_eq!(EntryError::TimeOutOfRange.message(), "Time out of range");
    assert_eq!(EntryError::NotFound(-2).message(), "Entry -2 not found");
}

#[test]
fn start_auto_stops_previous_entry() {
    let now = parse_rfc3339("2026-06-19T10:00:00Z").unwrap();
    let open = vec![
        entry(1, Some(1), "2026-06-19T09:00:00Z", None, None),
        entry(2, Some(1), "2026-06-19T11:00:00Z", None, None),
    ];
    let (closed, failure) = close_entries(open, &now);
    assert!(failure.is_none());
    assert_eq!(closed.len(), 2);
    assert!(closed.iter().all(|e| e.ended_at.as_deref() == Some("2026-06-19T10:00:00+00:00")));
    assert_eq!(closed[0].duration_seconds, Some(3600));
    assert_eq!(closed[1].duration_seconds, Some(0));
}

#[test]
fn closing_stops_at_an_unreadable_start() {
    let now = parse_rfc3339("2026-06-19T10:00:00Z").unwrap();
    let open = vec![
        entry(1, Some(1), "2026-06-19T09:00:00Z", None, None),
        entry(2, Some(1), "broken", None, None),
        entry(3, Some(1), "2026-06-19T09:30:00Z", None, None),
    ];
    let (closed, failure) = close_entries(open, &now);
    assert_eq!(closed.len(), 1);
    assert_eq!(closed[0].id, 1);
    assert!(matches!(failure, Some(EntryError::InvalidTime(ref t)) if t == "premature end of input"));
}

#[test]
fn unreadable_times_report_chrono_messages() {
    let stored = entry(3, Some(1), "2026-06-19T08:00:00Z", Some("2026-06-19T10:00:00Z"), Some(7200));
    let r = plan_entry_update(3, false, Some(stored.clone()), None, None, None, Some("2026-06-19T25:00:00Z"));
    assert_eq!(r.err().map(|e| e.message()), Some("input is out of range".to_string()));
    let r = plan_entry_update(3, false, Some(stored.clone()), None, None, Some("2026-06-19T09:00:00Zjunk"), None);
    assert_eq!(r.err().map(|e| e.message()), Some("trailing input".to_string()));
    let r = plan_entry_update(3, false, Some(stored), None, None, Some("2026/06/19T09:00:00Z"), None);
    assert_eq!(r.err().map(|e| e.message()), Some("input contains invalid characters".to_string()));
}
