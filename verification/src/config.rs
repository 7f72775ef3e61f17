//! Defaults of the configuration file.

use vstd::prelude::*;

verus! {

/// Idle time after which tracking is paused: five minutes.
pub const DEFAULT_IDLE_THRESHOLD_MS: u64 = 300_000;
/// Length of a Pomodoro focus phase.
pub const DEFAULT_POMODORO_WORK_MINUTES: u64 = 25;
/// Length of a Pomodoro break.
pub const DEFAULT_POMODORO_BREAK_MINUTES: u64 = 5;

/// Default idle threshold in milliseconds.
pub fn default_idle_threshold_ms() -> (n: u64)
    ensures
        n == 300_000,
{
    DEFAULT_IDLE_THRESHOLD_MS
}

/// Default length of a focus phase, in minutes.
pub fn default_pomodoro_work_minutes() -> (n: u64)
    ensures
        n == 25,
{
    DEFAULT_POMODORO_WORK_MINUTES
}

/// Default length of a break, in minutes.
pub fn default_pomodoro_break_minutes() -> (n: u64)
    ensures
        n == 5,
{
    DEFAULT_POMODORO_BREAK_MINUTES
}

/// Default UI theme.
pub fn default_theme() -> (t: String)
    ensures
        t@ == "synthwave"@,
{
    String::from_str("synthwave")
}

} // verus!
