use trackerclaw::budget::{check_budget_warnings, render_budget_bar};

/// The share of a budget as the tracker scales it: the used fraction,
/// capped at one, times the width, and the percentage with no decimals.
fn share(used: i64, budget: i64, width: usize) -> (usize, String) {
    let q = (used as f64 / budget as f64).min(1.0);
    ((q * width as f64) as usize, format!("{:.0}", q * 100.0))
}

fn bar(used: i64, budget: i64, width: usize) -> String {
    if budget <= 0 {
        return render_budget_bar(budget, width, 0, "");
    }
    let (filled, percent) = share(used, budget, width);
    render_budget_bar(budget, width, filled, &percent)
}

#[test]
fn budget_bar_zero_budget() {
    assert_eq!(bar(100, 0, 20), "[No budget]");
}

#[test]
fn budget_bar_partial_fill() {
    let bar = bar(1800, 3600, 10);
    assert!(bar.contains("50%"));
    assert_eq!(bar.chars().filter(|c| *c == '█').count(), 5);
    assert_eq!(bar.chars().filter(|c| *c == '░').count(), 5);
}

#[test]
fn budget_bar_clamps_over_100_percent() {
    let bar = bar(7200, 3600, 10);
    assert!(bar.contains("100%"));
    assert_eq!(bar.chars().filter(|c| *c == '█').count(), 10);
    assert_eq!(bar.chars().filter(|c| *c == '░').count(), 0);
}

#[test]
fn budget_bar_exact_text() {
    assert_eq!(render_budget_bar(3600, 4, 1, "25"), "[25%] █░░░");
    assert_eq!(render_budget_bar(3600, 3, 0, "0"), "[0%] ░░░");
    assert_eq!(render_budget_bar(3600, 2, 0, "-50"), "[-50%] ░░");
    assert_eq!(render_budget_bar(-5, 2, 7, "x"), "[No budget]");
}

#[test]
fn budget_bar_draws_the_float_scaled_fill() {
    // 0.29 * 100.0 is just below 29 in floating point: 28 cells are full.
    assert_eq!(share(29, 100, 100).0, 28);
    let b = bar(29, 100, 100);
    assert_eq!(b.chars().filter(|c| *c == '█').count(), 28);
    assert!(b.starts_with("[29%] "));
}

#[test]
fn budget_warning_at_eighty_percent() {
    let budgets = vec![
        ("a".to_string(), 3600, 2880),
        ("b".to_string(), 3600, 2879),
        ("c".to_string(), 0, 100),
        ("d".to_string(), 100, 500),
    ];
    let warn = check_budget_warnings(&budgets);
    let names: Vec<&str> = warn.iter().map(|w| w.0.as_str()).collect();
    assert_eq!(names, vec!["a", "d"]);
}

#[test]
fn budget_bar_never_overflows() {
    for used in [-100, 0, 1, 3599, 3600, 10_000, i64::MAX] {
        let b = bar(used, 3600, 12);
        let cells = b.chars().filter(|c| *c == '\u{2588}' || *c == '\u{2591}').count();
        assert_eq!(cells, 12, "{}", b);
    }
    assert!(bar(i64::MAX, 3600, 12).starts_with("[100%]"));
}
