//! The systemd user service that runs the idle monitor.

use vstd::prelude::*;

verus! {

/// File name of the service unit.
pub fn service_name() -> (n: &'static str)
    ensures
        n@ == "trackerclaw-idle.service"@,
{
    "trackerclaw-idle.service"
}

/// The unit file text for a binary at `bin_path`, run for `user`.
pub open spec fn unit_text(bin_path: Seq<char>, user: Seq<char>) -> Seq<char> {
    "[Unit]\nDescription=TrackerClaw idle monitor\nAfter=graphical-session.target\n\n[Service]\nExecStart="@
        + bin_path
        + " idle\nRestart=on-failure\nEnvironment=\"PATH=/usr/local/bin:/usr/bin:/bin:/home/"@
        + user + "/.local/bin\"\n\n[Install]\nWantedBy=default.target\n"@
}

/// The unit file that starts `<bin_path> idle` in the graphical session and
/// restarts it on failure.
pub fn service_unit(bin_path: &str, user: &str) -> (unit: String)
    ensures
        unit@ == unit_text(bin_path@, user@),
{
    let mut u = String::from_str(
        "[Unit]\nDescription=TrackerClaw idle monitor\nAfter=graphical-session.target\n\n[Service]\nExecStart=",
    );
    u.append(bin_path);
    u.append(" idle\nRestart=on-failure\nEnvironment=\"PATH=/usr/local/bin:/usr/bin:/bin:/home/");
    u.append(user);
    u.append("/.local/bin\"\n\n[Install]\nWantedBy=default.target\n");
    u
}

} // verus!
