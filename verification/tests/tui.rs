use trackerclaw::tui::{entry_duration_detail, entry_label, tab_bar};
use trackerclaw::pomodoro::Moment;
use trackerclaw::tui::{Key, Tab, TuiAction, TuiState};

fn at(s: u128) -> Moment {
    Moment { nanos: s * 1_000_000_000 }
}

#[test]
fn tabs_by_number_and_arrows() {
    let mut s = TuiState::new(2026, 6, at(0));
    assert_eq!(s.tab, Tab::Entries);
    s.on_key(Key::Char('3'), 0);
    assert_eq!(s.tab, Tab::ProjectChart);
    s.on_key(Key::Right, 0);
    assert_eq!(s.tab, Tab::Calendar);
    s.on_key(Key::Char('l'), 0);
    assert_eq!(s.tab, Tab::Entries);
    s.on_key(Key::Left, 0);
    assert_eq!(s.tab, Tab::Calendar);
    assert!(matches!(s.on_key(Key::Char('q'), 0), TuiAction::Quit));
}

#[test]
fn selection_stays_within_entries() {
    let mut s = TuiState::new(2026, 6, at(0));
    s.on_key(Key::Down, 2);
    assert_eq!(s.selected, 1);
    s.on_key(Key::Char('j'), 2);
    assert_eq!(s.selected, 1);
    s.on_key(Key::Up, 2);
    s.on_key(Key::Char('k'), 2);
    assert_eq!(s.selected, 0);
    s.on_key(Key::Down, 0);
    assert_eq!(s.selected, 0);
}

#[test]
fn idle_checks_every_thirty_seconds() {
    let mut s = TuiState::new(2026, 6, at(100));
    assert!(!s.idle_check_due(at(129)));
    assert!(s.idle_check_due(at(130)));
    assert!(s.record_idle_check(Some(true), at(130)));
    assert!(!s.record_idle_check(Some(true), at(160)));
    s.remember_task("deep work".to_string(), Some("focus".to_string()));
    assert!(!s.record_idle_check(Some(false), at(190)));
    assert!(s.asking_resume);
    assert!(!s.idle_check_due(at(1000)));
}

#[test]
fn resume_prompt_yes_restarts_remembered_task() {
    let mut s = TuiState::new(2026, 6, at(0));
    s.record_idle_check(Some(true), at(30));
    s.remember_task("deep work".to_string(), None);
    s.record_idle_check(Some(false), at(60));
    assert!(matches!(s.on_key(Key::Char('x'), 0), TuiAction::Continue));
    assert!(s.asking_resume);
    match s.on_key(Key::Char('y'), 0) {
        TuiAction::Resume { name, tags } => {
            assert_eq!(name, "deep work");
            assert_eq!(tags, None);
        }
        other => panic!("unexpected {:?}", other),
    }
    assert!(!s.asking_resume);
    assert_eq!(s.last_entry_name, None);
}

#[test]
fn resume_prompt_no_forgets_task() {
    let mut s = TuiState::new(2026, 6, at(0));
    s.record_idle_check(Some(true), at(30));
    s.remember_task("deep work".to_string(), None);
    s.record_idle_check(Some(false), at(60));
    assert!(matches!(s.on_key(Key::Esc, 0), TuiAction::Continue));
    assert!(!s.asking_resume);
    assert_eq!(s.last_entry_name, None);
}

#[test]
fn entry_list_labels() {
    let one = |d: i64| format!("{:.1}", d as f64 / 3600.0);
    let two = |d: i64| format!("{:.2}", d as f64 / 3600.0);
    assert_eq!(entry_label("write", Some(5400), &one(5400)), format!("{:<25} {:>6}", "write", "1.5h"));
    assert_eq!(entry_label("write", Some(3780), &one(3780)), format!("{:<25} {:>6}", "write", "1.1h"));
    assert_eq!(entry_label("write", Some(119), &one(119)), format!("{:<25} {:>6}", "write", "1m"));
    assert_eq!(entry_label("open", None, &one(0)), format!("{:<25} {:>6}", "open", "0m"));
    assert_eq!(entry_duration_detail(Some(5400), &two(5400)), "1.50h");
    assert_eq!(entry_duration_detail(Some(3661), &two(3661)), "1.02h");
    assert_eq!(entry_duration_detail(Some(125), &two(125)), "2m 5s");
    assert_eq!(entry_duration_detail(Some(-61), &two(-61)), "-1m -1s");
    assert_eq!(tab_bar(Tab::DailyChart), " Entries  [Daily]  Projects  Calendar");
}
