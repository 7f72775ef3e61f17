//! Team mode: who the current user is and what their role allows.

use vstd::prelude::*;
use crate::text::{str_eq, trim, trim_str};

verus! {

/// Why a user-related request was refused.
#[derive(Debug)]
pub enum AuthError {
    /// The action needs the `admin` role.
    AdminRequired,
    /// No user of that name exists.
    UserNotFound(String),
    /// A member asked for another user's report.
    NotOwnReport,
}

impl AuthError {
    /// The message shown to the user.
    pub fn message(&self) -> (m: String)
        ensures
            self is AdminRequired ==> m@ == "Admin role required."@,
            self matches AuthError::UserNotFound(n) ==> m@ == "User '"@ + n@
                + "' not found. Add them with 'trackerclaw team add "@ + n@ + "'"@,
            self is NotOwnReport ==> m@ == "Members can only view their own report."@,
    {
        match self {
            AuthError::AdminRequired => String::from_str("Admin role required."),
            AuthError::UserNotFound(n) => {
                let mut m = String::from_str("User '");
                m.append(n.as_str());
                m.append("' not found. Add them with 'trackerclaw team add ");
                m.append(n.as_str());
                m.append("'");
                m
            },
            AuthError::NotOwnReport => String::from_str("Members can only view their own report."),
        }
    }
}

/// Succeeds only for the `admin` role.
pub fn require_admin(role: &str) -> (r: Result<(), AuthError>)
    ensures
        r is Ok <==> role@ == "admin"@,
        r is Err ==> r matches Err(AuthError::AdminRequired),
{
    if !str_eq(role, "admin") {
        return Err(AuthError::AdminRequired);
    }
    Ok(())
}

/// The name of the current user from the contents of the user file:
/// trimmed, or `default` when the file could not be read.
pub fn user_name_from_file(contents: Option<String>) -> (name: String)
    ensures
        contents matches Some(c) ==> name@ == trim(c@),
        contents is None ==> name@ == "default"@,
{
    match contents {
        Some(c) => trim_str(c.as_str()),
        None => String::from_str("default"),
    }
}

/// The user a command runs as: the one named with `--user`, else the one
/// switched to last.
pub fn requested_user(override_user: Option<&str>, switched_to: String) -> (name: String)
    ensures
        override_user matches Some(u) ==> name@ == u@,
        override_user is None ==> name == switched_to,
{
    match override_user {
        Some(u) => String::from_str(u),
        None => switched_to,
    }
}

/// The current user as `(id, name, role)`, given the user record found
/// under `name` (if any): the record's id and role with the name asked for,
/// or `UserNotFound`.
pub fn resolve_current_user(name: String, found: Option<(i64, String, String)>) -> (r: Result<
    (i64, String, String),
    AuthError,
>)
    ensures
        found matches Some(u) ==> (r matches Ok(t) && t.0 == u.0 && t.1 == name && t.2 == u.2),
        found is None ==> (r matches Err(AuthError::UserNotFound(n)) && n == name),
{
    match found {
        Some((id, _, role)) => Ok((id, name, role)),
        None => Err(AuthError::UserNotFound(name)),
    }
}

/// Members may read only their own report; admins may read any.
pub fn check_report_access(is_admin: bool, requested: &str, current: &str) -> (r: Result<(), AuthError>)
    ensures
        r is Ok <==> is_admin || requested@ == current@,
        r is Err ==> r matches Err(AuthError::NotOwnReport),
{
    if !is_admin && !str_eq(requested, current) {
        return Err(AuthError::NotOwnReport);
    }
    Ok(())
}

} // verus!
