use trackerclaw::auth::{
    check_report_access, require_admin, requested_user, resolve_current_user,
    user_name_from_file, AuthError,
};

#[test]
fn only_admin_role_passes() {
    assert!(require_admin("admin").is_ok());
    let err = require_admin("member").unwrap_err();
    assert!(matches!(err, AuthError::AdminRequired));
    assert_eq!(err.message(), "Admin role required.");
    assert!(require_admin("Admin").is_err());
}

#[test]
fn user_file_contents_trimmed_or_default() {
    assert_eq!(user_name_from_file(Some(" alice\n".to_string())), "alice");
    assert_eq!(user_name_from_file(None), "default");
}

#[test]
fn override_user_wins() {
    assert_eq!(requested_user(Some("bob"), "alice".to_string()), "bob");
    assert_eq!(requested_user(None, "alice".to_string()), "alice");
}

#[test]
fn resolve_uses_record_or_reports_missing_user() {
    let r = resolve_current_user("alice".to_string(), Some((3, "alice".to_string(), "admin".to_string())));
    assert_eq!(r.unwrap(), (3, "alice".to_string(), "admin".to_string()));
    let err = resolve_current_user("zoe".to_string(), None).unwrap_err();
    assert_eq!(err.message(), "User 'zoe' not found. Add them with 'trackerclaw team add zoe'");
}

#[test]
fn members_read_only_their_report() {
    assert!(check_report_access(false, "alice", "alice").is_ok());
    assert!(check_report_access(true, "bob", "alice").is_ok());
    let err = check_report_access(false, "bob", "alice").unwrap_err();
    assert_eq!(err.message(), "Members can only view their own report.");
}
