//! The Pomodoro focus timer: a work phase followed by a break, which can be
//! paused and resumed. Time is read from a monotonic clock by the caller and
//! handed in as a `Moment`.

use vstd::prelude::*;
use crate::text::{dec_digits, pad_left, push_char, push_u128};

verus! {

/// Nanoseconds in a second.
pub const NANOS_PER_SEC: u128 = 1_000_000_000;

/// A length of time, in nanoseconds.
#[derive(Clone, Copy, PartialEq, Eq, Debug, Structural)]
pub struct Span {
    pub nanos: u128,
}

/// A point on a monotonic clock, in nanoseconds from an arbitrary origin.
#[derive(Clone, Copy, PartialEq, Eq, Debug, Structural)]
pub struct Moment {
    pub nanos: u128,
}

/// Largest number of nanoseconds a span may hold: that of `u64::MAX` whole
/// seconds and a fraction.
pub open spec fn max_span_nanos() -> int {
    (u64::MAX as int + 1) * 1_000_000_000 - 1
}

impl Span {
    /// A span within the range of a standard duration.
    pub open spec fn wf(self) -> bool {
        self.nanos <= max_span_nanos()
    }

    /// Whole seconds of the span.
    pub open spec fn secs(self) -> int {
        self.nanos as int / 1_000_000_000
    }

    /// The empty span.
    pub fn zero() -> (s: Span)
        ensures
            s.nanos == 0,
    {
        Span { nanos: 0 }
    }

    /// A span of `secs` whole seconds.
    pub fn from_secs(secs: u64) -> (s: Span)
        ensures
            s.nanos == secs * 1_000_000_000,
            s.wf(),
    {
        Span { nanos: secs as u128 * NANOS_PER_SEC }
    }

    /// Whole seconds of the span.
    pub fn as_secs(&self) -> (n: u64)
        requires
            self.wf(),
        ensures
            n == self.secs(),
    {
        (self.nanos / NANOS_PER_SEC) as u64
    }

    /// `self - other`, or zero when `other` is longer.
    pub fn saturating_sub(&self, other: Span) -> (s: Span)
        ensures
            s.nanos == sat_sub(self.nanos as int, other.nanos as int),
    {
        if self.nanos >= other.nanos {
            Span { nanos: self.nanos - other.nanos }
        } else {
            Span { nanos: 0 }
        }
    }
}

/// `a - b`, or zero when `b > a`.
pub open spec fn sat_sub(a: int, b: int) -> int {
    if a >= b { a - b } else { 0 }
}

/// The phase the timer is in.
#[derive(Clone, Copy, PartialEq, Eq, Debug, Structural)]
pub enum Phase {
    Work,
    Break,
}

/// State of a Pomodoro session.
pub struct PomodoroState {
    pub phase: Phase,
    /// Time left in the current phase, as of the last tick.
    pub remaining: Span,
    /// Length of the current phase.
    pub total: Span,
    /// When the current phase (re)started, rebased on resume so that paused
    /// time does not count.
    pub start: Moment,
    pub task_name: String,
    pub running: bool,
    pub done: bool,
    pub work_seconds: u64,
    pub break_seconds: u64,
}

impl PomodoroState {
    /// The spans of the state are within the range of a standard duration.
    pub open spec fn wf(self) -> bool {
        self.remaining.wf() && self.total.wf()
    }

    /// A fresh session: the work phase, running, started at `now`.
    pub open spec fn fresh(task_name: String, work_seconds: u64, break_seconds: u64, now: Moment) -> Self {
        PomodoroState {
            phase: Phase::Work,
            remaining: Span { nanos: (work_seconds * 1_000_000_000) as u128 },
            total: Span { nanos: (work_seconds * 1_000_000_000) as u128 },
            start: now,
            task_name,
            running: true,
            done: false,
            work_seconds,
            break_seconds,
        }
    }

    /// The state after a tick at `now`: a running phase that is not done
    /// counts down by the time elapsed since `start`, and is done once that
    /// reaches its length; otherwise nothing changes.
    pub open spec fn ticked(self, now: Moment) -> Self {
        if !self.running || self.done {
            self
        } else {
            let elapsed = sat_sub(now.nanos as int, self.start.nanos as int);
            if elapsed >= self.total.nanos {
                PomodoroState { remaining: Span { nanos: 0 }, done: true, ..self }
            } else {
                PomodoroState {
                    remaining: Span { nanos: (self.total.nanos - elapsed) as u128 },
                    ..self
                }
            }
        }
    }

    /// The state after pausing or resuming at `now`: resuming moves `start`
    /// back by the time already focused, so the pause does not count.
    pub open spec fn toggled(self, now: Moment) -> Self {
        if self.running {
            PomodoroState { running: false, ..self }
        } else {
            PomodoroState {
                running: true,
                start: Moment {
                    nanos: (now.nanos - sat_sub(self.total.nanos as int, self.remaining.nanos as int)) as u128,
                },
                ..self
            }
        }
    }

    /// The state after entering the break at `now`.
    pub open spec fn on_break(self, now: Moment) -> Self {
        PomodoroState {
            phase: Phase::Break,
            total: Span { nanos: (self.break_seconds * 1_000_000_000) as u128 },
            remaining: Span { nanos: (self.break_seconds * 1_000_000_000) as u128 },
            start: now,
            running: true,
            done: false,
            ..self
        }
    }

    /// Seconds focused in the current phase.
    pub open spec fn focused(self) -> int {
        sat_sub(self.total.nanos as int, self.remaining.nanos as int) / 1_000_000_000
    }

    /// A session for `task_name` with phase lengths in minutes, started at
    /// `now`.
    pub fn new(task_name: String, work_minutes: u64, break_minutes: u64, now: Moment) -> (s: Self)
        requires
            work_minutes * 60 <= u64::MAX,
            break_minutes * 60 <= u64::MAX,
        ensures
            s == Self::fresh(task_name, (work_minutes * 60) as u64, (break_minutes * 60) as u64, now),
            s.wf(),
    {
        Self::with_durations(task_name, work_minutes * 60, break_minutes * 60, now)
    }

    /// A session for `task_name` with phase lengths in seconds, started at
    /// `now`.
    pub fn with_durations(task_name: String, work_seconds: u64, break_seconds: u64, now: Moment) -> (s: Self)
        ensures
            s == Self::fresh(task_name, work_seconds, break_seconds, now),
            s.wf(),
    {
        let total = Span::from_secs(work_seconds);
        PomodoroState {
            phase: Phase::Work,
            remaining: total,
            total,
            start: now,
            task_name,
            running: true,
            done: false,
            work_seconds,
            break_seconds,
        }
    }

    /// Counts the running phase down to `now`.
    pub fn tick(&mut self, now: Moment)
        ensures
            *final(self) == old(self).ticked(now),
            old(self).wf() ==> final(self).wf(),
    {
        if !self.running || self.done {
            return;
        }
        let elapsed: u128 = if now.nanos >= self.start.nanos { now.nanos - self.start.nanos } else { 0 };
        if elapsed >= self.total.nanos {
            self.remaining = Span::zero();
            self.done = true;
        } else {
            self.remaining = Span { nanos: self.total.nanos - elapsed };
        }
    }

    /// Pauses a running phase, or resumes a paused one at `now` so that
    /// the paused time does not count against the time left.
    pub fn toggle_pause(&mut self, now: Moment)
        requires
            !old(self).running ==> sat_sub(old(self).total.nanos as int, old(self).remaining.nanos as int) <= now.nanos,
        ensures
            *final(self) == old(self).toggled(now),
            old(self).wf() ==> final(self).wf(),
    {
        self.running = !self.running;
        if self.running {
            let elapsed = self.total.saturating_sub(self.remaining);
            self.start = Moment { nanos: now.nanos - elapsed.nanos };
        }
    }

    /// Whole seconds actually focused in the current phase.
    pub fn focused_seconds(&self) -> (n: u64)
        requires
            self.wf(),
        ensures
            n == self.focused(),
    {
        self.total.saturating_sub(self.remaining).as_secs()
    }

    /// Enters the break phase at `now`, running and not done.
    pub fn transition_to_break(&mut self, now: Moment)
        ensures
            *final(self) == old(self).on_break(now),
            final(self).wf(),
    {
        self.phase = Phase::Break;
        self.total = Span::from_secs(self.break_seconds);
        self.remaining = self.total;
        self.start = now;
        self.running = true;
        self.done = false;
    }

    /// Formats a span as `MM:SS` (minutes keep all their digits).
    pub fn fmt_time(d: Span) -> (t: String)
        requires
            d.wf(),
        ensures
            t@ == clock_text(d.secs()),
    {
        let secs = d.as_secs();
        let mut out = String::new();
        if secs / 60 < 10 {
            push_char(&mut out, '0');
        }
        push_u128(&mut out, (secs / 60) as u128);
        push_char(&mut out, ':');
        if secs % 60 < 10 {
            push_char(&mut out, '0');
        }
        push_u128(&mut out, (secs % 60) as u128);
        proof {
            lemma_dec_digits_one(secs as int / 60);
            lemma_dec_digits_one(secs as int % 60);
        }
        assert(out@ =~= clock_text(d.secs()));
        out
    }

    /// Seconds to log for the session: the whole work length once the work
    /// phase is over, otherwise the seconds focused so far.
    pub fn seconds_to_log(&self) -> (n: u64)
        requires
            self.wf(),
        ensures
            n == (if self.phase == Phase::Work { self.focused() } else { self.work_seconds as int }),
    {
        if self.phase == Phase::Work {
            self.focused_seconds()
        } else {
            self.work_seconds
        }
    }
}

impl PomodoroState {
    /// The state after the space key at `now`: a finished work phase moves
    /// on to the break; otherwise the timer is paused or resumed.
    pub open spec fn after_space(self, now: Moment) -> Self {
        if self.done && self.phase == Phase::Work {
            self.on_break(now)
        } else {
            self.toggled(now)
        }
    }

    /// Handles the space key at `now`.
    pub fn on_space(&mut self, now: Moment)
        requires
            !(old(self).done && old(self).phase == Phase::Work) && !old(self).running ==> sat_sub(
                old(self).total.nanos as int,
                old(self).remaining.nanos as int,
            ) <= now.nanos,
        ensures
            *final(self) == old(self).after_space(now),
            old(self).wf() ==> final(self).wf(),
    {
        if self.done && self.phase == Phase::Work {
            self.transition_to_break(now);
        } else {
            self.toggle_pause(now);
        }
    }

    /// The key help shown under the timer.
    pub open spec fn hint_text(self) -> Seq<char> {
        if self.done && self.phase == Phase::Work {
            "Press [Space] to start break, [q] to quit"@
        } else if self.done && self.phase == Phase::Break {
            "Break done! Press [q] to quit"@
        } else if self.running {
            "[Space] pause/resume  [q] quit"@
        } else {
            "[Space] resume  [q] quit"@
        }
    }

    /// The key help for the current state.
    pub fn hint(&self) -> (h: &'static str)
        ensures
            h@ == self.hint_text(),
    {
        if self.done && self.phase == Phase::Work {
            "Press [Space] to start break, [q] to quit"
        } else if self.done && self.phase == Phase::Break {
            "Break done! Press [q] to quit"
        } else if self.running {
            "[Space] pause/resume  [q] quit"
        } else {
            "[Space] resume  [q] quit"
        }
    }

    /// The banner of the current phase.
    pub fn phase_label(&self) -> (l: &'static str)
        ensures
            self.phase == Phase::Work ==> l@ == "\u{1F345} FOCUS"@,
            self.phase == Phase::Break ==> l@ == "\u{2615} BREAK"@,
    {
        match self.phase {
            Phase::Work => "\u{1F345} FOCUS",
            Phase::Break => "\u{2615} BREAK",
        }
    }
}

/// What ending a session with `seconds` focused leads to: the name of the
/// entry to log, when at least a minute was focused, and the message shown.
pub open spec fn session_outcome_text(task: Seq<char>, seconds: int) -> (Option<Seq<char>>, Seq<char>) {
    if seconds >= 60 {
        (Some("Pomodoro: "@ + task), "Logged Pomodoro session ("@ + dec_digits(seconds as nat) + "s)"@)
    } else {
        (None, "Pomodoro too short to log ("@ + dec_digits(seconds as nat) + "s focused)."@)
    }
}

/// Decides whether a session for `task` with `seconds` focused is logged,
/// under which entry name, and what is printed.
pub fn session_outcome(task: &str, seconds: u64) -> (r: (Option<String>, String))
    ensures
        r.0 is None <==> session_outcome_text(task@, seconds as int).0 is None,
        r.0 matches Some(n) ==> session_outcome_text(task@, seconds as int).0 == Some(n@),
        r.1@ == session_outcome_text(task@, seconds as int).1,
{
    if seconds >= 60 {
        let mut name = String::from_str("Pomodoro: ");
        name.append(task);
        let mut msg = String::from_str("Logged Pomodoro session (");
        push_u128(&mut msg, seconds as u128);
        msg.append("s)");
        (Some(name), msg)
    } else {
        let mut msg = String::from_str("Pomodoro too short to log (");
        push_u128(&mut msg, seconds as u128);
        msg.append("s focused).");
        (None, msg)
    }
}

/// `MM:SS` for a number of seconds: minutes and seconds each zero-padded to
/// two digits.
pub open spec fn clock_text(secs: int) -> Seq<char> {
    pad_left(dec_digits((secs / 60) as nat), 2, '0') + seq![':'] + pad_left(
        dec_digits((secs % 60) as nat),
        2,
        '0',
    )
}

/// A number below ten has one digit; ten and above have at least two.
pub proof fn lemma_dec_digits_one(n: int)
    requires
        n >= 0,
    ensures
        n < 10 ==> dec_digits(n as nat).len() == 1,
        n >= 10 ==> dec_digits(n as nat).len() >= 2,
    decreases n,
{
    if n >= 10 {
        lemma_dec_digits_one(n / 10);
    }
}

/// A finished phase stays finished: ticking a done timer changes nothing.
pub proof fn law_done_is_sticky(s: PomodoroState, now: Moment)
    requires
        s.done,
    ensures
        s.ticked(now) == s,
{
}

/// A paused timer does not count down: ticking it changes nothing.
pub proof fn law_pause_freezes_remaining(s: PomodoroState, now: Moment)
    requires
        !s.running,
    ensures
        s.ticked(now) == s,
{
}

/// Resuming rebases the start so that the paused time is not consumed: a
/// tick at the moment of resuming finds the same time left as before the
/// pause.
pub proof fn law_resume_keeps_remaining(s: PomodoroState, now: Moment)
    requires
        !s.running,
        !s.done,
        s.remaining.nanos <= s.total.nanos,
        s.total.nanos - s.remaining.nanos <= now.nanos,
    ensures
        s.toggled(now).running,
        s.toggled(now).ticked(now).remaining == s.remaining,
        s.toggled(now).ticked(now).done == (s.remaining.nanos == 0),
{
}

/// Ticking never leaves more time than the phase length, and a phase is
/// done exactly when no time is left (for a running phase of positive
/// length).
pub proof fn law_tick_counts_down(s: PomodoroState, now: Moment)
    requires
        s.running,
        !s.done,
    ensures
        s.ticked(now).remaining.nanos <= s.total.nanos,
        s.ticked(now).done <==> s.ticked(now).remaining.nanos == 0 || s.total.nanos == 0,
        s.ticked(now).done ==> s.ticked(now).remaining.nanos == 0,
{
}

/// Entering the break starts a fresh, running break of the configured
/// length, whatever state the work phase was in.
pub proof fn law_break_starts_fresh(s: PomodoroState, now: Moment)
    ensures
        s.on_break(now).phase == Phase::Break,
        s.on_break(now).running,
        !s.on_break(now).done,
        s.on_break(now).remaining == s.on_break(now).total,
        s.on_break(now).total.nanos == s.break_seconds * 1_000_000_000,
{
}

/// Focused time and time left add up to the phase length.
pub proof fn law_focused_plus_remaining(s: PomodoroState)
    requires
        s.remaining.nanos <= s.total.nanos,
    ensures
        s.focused() * 1_000_000_000 <= s.total.nanos - s.remaining.nanos < (s.focused() + 1) * 1_000_000_000,
{
}

} // verus!
