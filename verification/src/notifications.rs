//! Desktop notifications: the messages for a timer milestone and for an
//! idle auto-pause. The caller shows them.

use vstd::prelude::*;
use crate::text::{int_text, push_i128};

verus! {

/// A desktop notification: summary line and body.
pub struct Notice {
    pub title: String,
    pub body: String,
}

/// The notification for a task tracked for a whole number of hours.
pub fn notify_milestone(name: &str, elapsed_minutes: i64) -> (n: Notice)
    ensures
        n.title@ == "TrackerClaw: "@ + name@ + " Milestone"@,
        n.body@ == "You've been working on '"@ + name@ + "' for "@ + int_text(elapsed_minutes as int)
            + " minutes."@,
{
    let mut title = String::from_str("TrackerClaw: ");
    title.append(name);
    title.append(" Milestone");
    let mut body = String::from_str("You've been working on '");
    body.append(name);
    body.append("' for ");
    push_i128(&mut body, elapsed_minutes as i128);
    body.append(" minutes.");
    Notice { title, body }
}

/// The notification for a task paused because the user went idle.
pub fn notify_idle_resume(name: &str) -> (n: Notice)
    ensures
        n.title@ == "TrackerClaw: Idle Detected"@,
        n.body@ == "You were idle. Task '"@ + name@
            + "' has been paused. Use 'trackerclaw resume' to continue."@,
{
    let title = String::from_str("TrackerClaw: Idle Detected");
    let mut body = String::from_str("You were idle. Task '");
    body.append(name);
    body.append("' has been paused. Use 'trackerclaw resume' to continue.");
    Notice { title, body }
}

} // verus!
