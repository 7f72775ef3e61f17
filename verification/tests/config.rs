use trackerclaw::config::{
    default_idle_threshold_ms, default_pomodoro_break_minutes, default_pomodoro_work_minutes,
    default_theme,
};

#[test]
fn defaults_are_sane() {
    assert_eq!(default_idle_threshold_ms(), 300000);
    assert_eq!(default_pomodoro_work_minutes(), 25);
    assert_eq!(default_pomodoro_break_minutes(), 5);
    assert_eq!(default_theme(), "synthwave");
}
