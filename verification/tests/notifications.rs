use trackerclaw::notifications::{notify_idle_resume, notify_milestone};

#[test]
fn milestone_notice_text() {
    let n = notify_milestone("write docs", 120);
    assert_eq!(n.title, "TrackerClaw: write docs Milestone");
    assert_eq!(n.body, "You've been working on 'write docs' for 120 minutes.");
}

#[test]
fn idle_notice_text() {
    let n = notify_idle_resume("review");
    assert_eq!(n.title, "TrackerClaw: Idle Detected");
    assert_eq!(
        n.body,
        "You were idle. Task 'review' has been paused. Use 'trackerclaw resume' to continue."
    );
}
