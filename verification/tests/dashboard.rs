use trackerclaw::dashboard::{decide_start, empty_name_message, positive_totals, short_day, StartDecision};

#[test]
fn empty_task_name_rejected() {
    assert!(matches!(decide_start("   ", false), StartDecision::EmptyName));
    assert!(empty_name_message().contains("empty"));
}

#[test]
fn start_trims_name_and_refuses_double_start() {
    match decide_start("  smoke test ", false) {
        StartDecision::Start(n) => assert_eq!(n, "smoke test"),
        other => panic!("unexpected {:?}", other),
    }
    assert!(matches!(decide_start("smoke test", true), StartDecision::AlreadyTracking));
}

#[test]
fn short_day_drops_the_year() {
    assert_eq!(short_day("2026-06-01"), "06-01");
    assert_eq!(short_day("today"), "");
    assert_eq!(short_day("a-b-c-d"), "b-c-d");
}

#[test]
fn positive_totals_keep_order_and_limit() {
    let stats = vec![
        ("a".to_string(), 0),
        ("b".to_string(), 60),
        ("c".to_string(), -5),
        ("d".to_string(), 30),
        ("e".to_string(), 10),
    ];
    let names: Vec<String> = positive_totals(&stats, 2).into_iter().map(|p| p.0).collect();
    assert_eq!(names, vec!["b".to_string(), "d".to_string()]);
    assert_eq!(positive_totals(&stats, 10).len(), 3);
}
