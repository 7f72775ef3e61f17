use trackerclaw::integrations::{clockify_entries_url, clockify_projects, clockify_projects_url, project_name_for, toggl_auth_header, toggl_create_url, toggl_entries_url};
use trackerclaw::clock::parse_rfc3339;
use trackerclaw::entries::Entry;
use trackerclaw::integrations::{
    already_imported, clockify_tags, join_tags, plan_clockify_import, plan_toggl_import,
    split_tags, toggl_export_entry, ClockifyEntry, ImportError, ImportStep, TogglEntry,
};

fn toggl(desc: &str, start: &str, duration: i64, tags: &[&str]) -> TogglEntry {
    TogglEntry {
        description: desc.to_string(),
        start: start.to_string(),
        duration,
        tags: tags.iter().map(|t| t.to_string()).collect(),
    }
}

#[test]
fn toggl_entry_becomes_completed_row() {
    let e = toggl("Fix bug", "2026-06-19T09:00:00+02:00", 3600, &["rust", "backend"]);
    match plan_toggl_import(&e, &vec![]).unwrap() {
        ImportStep::Insert(row) => {
            assert_eq!(row.name, "Fix bug");
            assert_eq!(row.tags.as_deref(), Some("rust,backend"));
            assert_eq!(row.started, parse_rfc3339("2026-06-19T07:00:00Z").unwrap());
            assert_eq!(row.ended, parse_rfc3339("2026-06-19T08:00:00Z").unwrap());
            assert_eq!(row.duration, 3600);
        }
        ImportStep::Skip => panic!("should insert"),
    }
}

#[test]
fn existing_keys_detect_duplicates() {
    let existing = vec![("dup".to_string(), "2026-06-19T07:00:00+00:00".to_string())];
    let dup = toggl("dup", "2026-06-19T07:00:00Z", 3600, &[]);
    assert!(matches!(plan_toggl_import(&dup, &existing), Ok(ImportStep::Skip)));
    let other = toggl("other", "2026-06-19T07:00:00Z", 3600, &[]);
    match plan_toggl_import(&other, &existing).unwrap() {
        ImportStep::Insert(row) => assert_eq!(row.tags, None),
        ImportStep::Skip => panic!("different name is no duplicate"),
    }
    assert!(already_imported(&existing, "dup", "2026-06-19T07:00:00+00:00"));
    assert!(!already_imported(&existing, "dup", "2026-06-19T07:00:00Z"));
}

#[test]
fn toggl_import_errors() {
    let bad = toggl("x", "noon", 60, &[]);
    assert!(matches!(plan_toggl_import(&bad, &vec![]), Err(ImportError::InvalidTime(ref t)) if t == "premature end of input"));
    let huge = toggl("x", "2026-06-19T07:00:00Z", i64::MAX, &[]);
    assert!(matches!(plan_toggl_import(&huge, &vec![]), Err(ImportError::TimeOutOfRange)));
}

#[test]
fn clockify_entry_uses_project_name_and_tag_ids() {
    let e = ClockifyEntry {
        description: "Design".to_string(),
        start: "2026-06-19T09:00:00Z".to_string(),
        end: "2026-06-19T09:45:30Z".to_string(),
        project_id: Some("abc123".to_string()),
        tag_ids: vec!["t1".to_string(), "t2".to_string()],
    };
    match plan_clockify_import(&e, Some("Website".to_string()), &vec![]).unwrap() {
        ImportStep::Insert(row) => {
            assert_eq!(row.tags.as_deref(), Some("Website,t1,t2"));
            assert_eq!(row.duration, 2730);
        }
        ImportStep::Skip => panic!("should insert"),
    }
    let bad_end = ClockifyEntry { end: "later".to_string(), ..e };
    assert!(matches!(plan_clockify_import(&bad_end, None, &vec![]), Err(ImportError::InvalidTime(ref t)) if t == "premature end of input"));
}

#[test]
fn tag_lists() {
    assert_eq!(join_tags(&vec![]), None);
    assert_eq!(join_tags(&vec!["a".to_string(), "b".to_string()]).as_deref(), Some("a,b"));
    assert_eq!(split_tags(Some(" a, ,b ,")), vec!["a".to_string(), "b".to_string()]);
    assert!(split_tags(None).is_empty());
    assert_eq!(clockify_tags(None, &vec!["x".to_string()]), vec!["x".to_string()]);
}

#[test]
fn export_entry_to_toggl() {
    let e = Entry {
        id: 1,
        name: "Write".to_string(),
        tags: Some("docs, rust".to_string()),
        project_id: None,
        user_id: Some(1),
        started_at: "2026-06-19T09:00:00+00:00".to_string(),
        ended_at: None,
        duration_seconds: None,
    };
    let t = toggl_export_entry(&e);
    assert_eq!(t.description, "Write");
    assert_eq!(t.start, "2026-06-19T09:00:00+00:00");
    assert_eq!(t.duration, 0);
    assert_eq!(t.tags, vec!["docs".to_string(), "rust".to_string()]);
}

#[test]
fn toggl_basic_auth_header() {
    // "tok:api_token" in base64
    assert_eq!(toggl_auth_header("tok"), "Basic dG9rOmFwaV90b2tlbg==");
}

#[test]
fn api_addresses() {
    assert_eq!(
        toggl_entries_url("2026-06-01T00:00:00+00:00", "2026-06-02T00:00:00+00:00"),
        "https://api.track.toggl.com/api/v9/me/time_entries?start_date=2026-06-01T00:00:00+00:00&end_date=2026-06-02T00:00:00+00:00"
    );
    assert_eq!(toggl_create_url(42), "https://api.track.toggl.com/api/v9/workspaces/42/time_entries");
    assert_eq!(
        clockify_entries_url("ws", "a", "b"),
        "https://api.clockify.me/api/v1/workspaces/ws/user/me/time-entries?start=a&end=b&page-size=5000"
    );
    assert_eq!(clockify_projects_url("ws"), "https://api.clockify.me/api/v1/workspaces/ws/projects");
}

#[test]
fn project_names_later_pairs_win() {
    let projects = vec![
        ("p1".to_string(), "Old".to_string()),
        ("p2".to_string(), "Other".to_string()),
        ("p1".to_string(), "New".to_string()),
    ];
    assert_eq!(project_name_for(&projects, Some("p1")).as_deref(), Some("New"));
    assert_eq!(project_name_for(&projects, Some("p2")).as_deref(), Some("Other"));
    assert_eq!(project_name_for(&projects, Some("p3")), None);
    assert_eq!(project_name_for(&projects, None), None);
}

#[test]
fn toggl_auth_header_pads_and_encodes_utf8_bytes() {
    assert_eq!(toggl_auth_header("a"), "Basic YTphcGlfdG9rZW4=");
    assert_eq!(toggl_auth_header("é"), "Basic w6k6YXBpX3Rva2Vu");
}

#[test]
fn clockify_projects_keep_entries_with_id_and_name() {
    let body = br#"[{"id":"p1","name":"Website"},{"id":"p2"},{"id":7,"name":"Bad"},{"name":"NoId"},{"id":"p3","name":"App","archived":false}]"#.to_vec();
    assert_eq!(
        clockify_projects(&body),
        Some(vec![("p1".to_string(), "Website".to_string()), ("p3".to_string(), "App".to_string())])
    );
    assert_eq!(clockify_projects(&b"[]".to_vec()), Some(vec![]));
    assert_eq!(clockify_projects(&b"{\"id\":\"p1\"}".to_vec()), None);
    assert_eq!(clockify_projects(&b"not json".to_vec()), None);
}
