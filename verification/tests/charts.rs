use trackerclaw::charts::{bar_width, tui_bar_chart, tui_project_chart, BarCells};

/// Scales hour values into bars as the tracker does, in floating point.
fn cells(data: &[(String, f64)], max_width: usize) -> Vec<(String, BarCells)> {
    let labels: Vec<String> = data.iter().map(|(l, _)| l.clone()).collect();
    let bmw = bar_width(&labels, max_width);
    let max_val = data.iter().map(|(_, v)| *v).fold(0.0_f64, f64::max).max(1.0);
    data.iter()
        .map(|(label, value)| {
            let ratio = value / max_val;
            let full = (ratio * bmw as f64) as usize;
            let eighths = ((ratio * bmw as f64).fract() * 8.0) as usize;
            (label.clone(), BarCells { full, eighths, hours: format!("{:.1}", value) })
        })
        .collect()
}

fn chart(data: &[(&str, f64)], w: usize, h: usize) -> Vec<String> {
    let owned: Vec<(String, f64)> = data.iter().map(|(l, v)| (l.to_string(), *v)).collect();
    tui_bar_chart(&cells(&owned, w), "T", w, h)
}

#[test]
fn tui_bar_chart_alignment_counts_chars_not_bytes() {
    let lines = chart(&[("a", 1.0), ("b", 2.0)], 40, 10);
    let widths: Vec<usize> = lines[1..3].iter().map(|l| l.chars().count()).collect();
    assert_eq!(widths[0], widths[1], "misaligned: {:?}", lines);
}

#[test]
fn tui_bar_chart_empty() {
    let lines = tui_bar_chart(&vec![], "T", 40, 10);
    assert_eq!(lines.len(), 2);
    assert!(lines[1].contains("No data"));
}

#[test]
fn tui_bar_chart_exact_rows() {
    let lines = chart(&[("a", 1.0), ("b", 2.0)], 40, 10);
    assert_eq!(lines.len(), 4);
    assert_eq!(lines[0], "T");
    let half = format!("a │{}\u{258C}{}1.0h", "█".repeat(17), " ".repeat(18));
    assert_eq!(lines[1], half);
    let full = format!("b │{} 2.0h", "█".repeat(35));
    assert_eq!(lines[2], full);
    assert_eq!(lines[3], format!("  └{}", "─".repeat(35)));
}

#[test]
fn tui_bar_chart_draws_given_cells() {
    let data = vec![("x".to_string(), BarCells { full: 4, eighths: 4, hours: "0.5".to_string() })];
    let lines = tui_bar_chart(&data, "S", 14, 3);
    // bar width 9: four full cells and a half cell.
    assert_eq!(lines[1], format!("x │{}\u{258C}{}0.5h", "█".repeat(4), " ".repeat(5)));
    // the float-scaled bar of 0.29 of 50 cells has three eighths.
    let scaled = cells(&[("y".to_string(), 1044.0 / 3600.0)], 55);
    assert_eq!((scaled[0].1.full, scaled[0].1.eighths), (14, 3));
}

#[test]
fn tui_bar_chart_truncates_rows_and_long_labels() {
    let lines = chart(&[("a-very-long-project-name", 1.0), ("b", 1.0), ("c", 1.0)], 30, 4);
    assert_eq!(lines.len(), 4);
    assert!(lines[1].starts_with("a-very-long- │"));
    assert!(lines[2].starts_with("           b │"));
}

#[test]
fn tui_project_chart_is_at_least_five_rows_high() {
    let data: Vec<(String, f64)> = (0..7).map(|i| (format!("p{}", i), (i + 1) as f64)).collect();
    let lines = tui_project_chart(&cells(&data, 40), "Projects", 40);
    assert_eq!(lines.len(), 7);
    let few = vec![("p".to_string(), 1.5)];
    let lines = tui_project_chart(&cells(&few, 40), "Projects", 40);
    assert_eq!(lines.len(), 3);
    assert!(lines[1].ends_with(" 1.5h"));
}
