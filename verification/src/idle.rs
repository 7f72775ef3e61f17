//! Idle detection: reading the idle time reported by `xprintidle`, the
//! status line, and the monitor that pauses tracking when the user goes
//! idle and announces every full hour of tracked work.

use vstd::prelude::*;
use crate::clock::{parse_rfc3339, parsed_instant, secs_bound, seconds_between, whole_seconds_between, Timestamp};
use crate::pomodoro::Moment;
use crate::text::{dec_digits, push_u128, trim, trim_str};

verus! {

/// Whether `c` is an ASCII decimal digit.
pub open spec fn is_digit(c: char) -> bool {
    '0' <= c && c <= '9'
}

/// The value of a string of decimal digits.
pub open spec fn digits_value(s: Seq<char>) -> int
    decreases s.len(),
{
    if s.len() == 0 {
        0
    } else {
        digits_value(s.drop_last()) * 10 + (s.last() as int - 48)
    }
}

/// The text after an optional leading `+` (a lone `+` is kept).
pub open spec fn digits_part(s: Seq<char>) -> Seq<char> {
    if s.len() > 1 && s[0] == '+' { s.drop_first() } else { s }
}

/// Whether every character is a decimal digit.
pub open spec fn all_digits(d: Seq<char>) -> bool {
    forall|i: int| 0 <= i < d.len() ==> is_digit(#[trigger] d[i])
}

/// What `str::parse::<u64>` returns: an optional `+` followed by at least
/// one decimal digit, whose value fits in 64 bits.
pub open spec fn parsed_u64(s: Seq<char>) -> Option<u64> {
    let d = digits_part(s);
    if d.len() > 0 && all_digits(d) && digits_value(d) <= u64::MAX {
        Some(digits_value(d) as u64)
    } else {
        None
    }
}

/// Parses a decimal `u64` as `str::parse` does.
pub fn parse_u64(s: &str) -> (r: Option<u64>)
    ensures
        r == parsed_u64(s@),
{
    let n = s.unicode_len();
    let start: usize = if n > 1 && s.get_char(0) == '+' { 1 } else { 0 };
    let ghost d = digits_part(s@);
    assert(d =~= s@.subrange(start as int, n as int));
    if start >= n {
        assert(d.len() == 0);
        return None;
    }
    let cap: u128 = 18_446_744_073_709_551_616;
    let mut v: u128 = 0;
    let mut i: usize = start;
    while i < n
        invariant
            start <= i <= n,
            n == s@.len(),
            d == s@.subrange(start as int, n as int),
            d == digits_part(s@),
            forall|j: int| start <= j < i ==> is_digit(#[trigger] s@[j]),
            v == (if digits_value(s@.subrange(start as int, i as int)) < cap { digits_value(s@.subrange(start as int, i as int)) } else { cap as int }),
            cap == u64::MAX + 1,
            digits_value(s@.subrange(start as int, i as int)) >= 0,
        decreases n - i,
    {
        let c = s.get_char(i);
        if !('0' <= c && c <= '9') {
            assert(!is_digit(d[i - start]));
            assert(!all_digits(d));
            return None;
        }
        let dv = (c as u32 - 48) as u128;
        proof {
            assert(s@.subrange(start as int, i + 1).drop_last() =~= s@.subrange(start as int, i as int));
        }
        let next = v * 10 + dv;
        v = if next < cap { next } else { cap };
        i = i + 1;
    }
    assert(forall|j: int| 0 <= j < d.len() ==> is_digit(#[trigger] d[j]) == is_digit(s@[start + j]));
    if v < cap {
        Some(v as u64)
    } else {
        None
    }
}

/// Reads the idle time in milliseconds printed by `xprintidle`: the output
/// trimmed of white space, as an unsigned decimal.
pub fn parse_idle_ms(output: &str) -> (ms: Option<u64>)
    ensures
        ms == parsed_u64(trim(output@)),
{
    let t = trim_str(output);
    parse_u64(t.as_str())
}

/// The status line of `check_idle_status`.
pub open spec fn idle_status_text(idle_ms: Option<u64>, threshold_ms: u64) -> Seq<char> {
    match idle_ms {
        Some(ms) => {
            let mins = dec_digits((ms / 60000) as nat);
            let secs = dec_digits(((ms % 60000) / 1000) as nat);
            if ms >= threshold_ms {
                "Idle: "@ + mins + "m "@ + secs + "s (threshold: "@ + dec_digits(
                    (threshold_ms / 60000) as nat,
                ) + "m)"@
            } else {
                "Active: "@ + mins + "m "@ + secs + "s since last input"@
            }
        },
        None => "Idle detection unavailable. Install xprintidle or ensure X11 is running."@,
    }
}

/// Describes the idle state: idle (with the threshold) or active, with the
/// time since the last input in minutes and seconds; or says that idle
/// time cannot be read.
pub fn check_idle_status(idle_ms: Option<u64>, threshold_ms: u64) -> (s: String)
    ensures
        s@ == idle_status_text(idle_ms, threshold_ms),
{
    match idle_ms {
        Some(ms) => {
            let mins = ms / 60000;
            let secs = (ms % 60000) / 1000;
            let mut s = if ms >= threshold_ms {
                String::from_str("Idle: ")
            } else {
                String::from_str("Active: ")
            };
            push_u128(&mut s, mins as u128);
            s.append("m ");
            push_u128(&mut s, secs as u128);
            if ms >= threshold_ms {
                s.append("s (threshold: ");
                push_u128(&mut s, (threshold_ms / 60000) as u128);
                s.append("m)");
            } else {
                s.append("s since last input");
            }
            s
        },
        None => String::from_str(
            "Idle detection unavailable. Install xprintidle or ensure X11 is running.",
        ),
    }
}

/// What changed at an idle sample.
#[derive(Debug, PartialEq, Eq, Structural)]
pub enum IdleChange {
    /// The user just went idle: tracking is to be paused.
    BecameIdle,
    /// The user is back after the given whole minutes of idleness.
    CameBack { idle_minutes: u128 },
    /// Nothing changed.
    Unchanged,
}

/// State of the idle monitor.
pub struct IdleMonitor {
    pub was_idle: bool,
    /// When the user went idle (while idle).
    pub idle_since: Option<Moment>,
    /// The (entry id, minutes) milestones already announced.
    pub notified: Vec<(i64, i64)>,
}

/// Whole minutes from `earlier` to `later`, truncated toward zero as
/// chrono's `num_minutes` does.
pub open spec fn minutes_between(later: Timestamp, earlier: Timestamp) -> int {
    let s = seconds_between(later, earlier);
    if s >= 0 { s / 60 } else { -((-s) / 60) }
}

/// The milestone (in minutes) due for the current entry that started at
/// `started`, if any: a positive whole number of hours of tracking.
pub open spec fn milestone_due(started: Timestamp, now: Timestamp) -> Option<int> {
    let m = minutes_between(now, started);
    if m > 0 && m % 60 == 0 { Some(m) } else { None }
}

/// The current entry as its id and stored start time.
pub open spec fn current_view(current: Option<(i64, String)>) -> Option<(i64, Seq<char>)> {
    match current {
        Some(c) => Some((c.0, c.1@)),
        None => None,
    }
}

/// A milestone check for entry `id` started at `started`: the announced
/// milestones afterwards and the milestone to announce now. A due milestone
/// is announced unless it already was.
pub open spec fn started_step(
    notified: Seq<(i64, i64)>,
    id: i64,
    started: Timestamp,
    now: Timestamp,
) -> (Seq<(i64, i64)>, Option<i64>) {
    match milestone_due(started, now) {
        Some(due) => if notified.contains((id, due as i64)) {
            (notified, None)
        } else {
            (notified.push((id, due as i64)), Some(due as i64))
        },
        None => (notified, None),
    }
}

/// One milestone check: the announced milestones afterwards and the
/// milestone to announce now. Without a current entry the announced
/// milestones are forgotten; an entry whose start cannot be read is
/// skipped.
pub open spec fn milestone_step(
    notified: Seq<(i64, i64)>,
    current: Option<(i64, Seq<char>)>,
    now: Timestamp,
) -> (Seq<(i64, i64)>, Option<i64>) {
    match current {
        None => (Seq::empty(), None),
        Some(c) => match parsed_instant(c.1) {
            None => (notified, None),
            Some(started) => started_step(notified, c.0, started, now),
        },
    }
}

impl IdleMonitor {
    /// The announced milestones are distinct.
    pub open spec fn wf(self) -> bool {
        forall|i: int, j: int| 0 <= i < j < self.notified@.len() ==> #[trigger] self.notified@[i] != #[trigger] self.notified@[j]
    }

    /// A monitor that has seen no sample yet.
    pub fn new() -> (m: Self)
        ensures
            !m.was_idle,
            m.idle_since is None,
            m.notified@.len() == 0,
            m.wf(),
    {
        IdleMonitor { was_idle: false, idle_since: None, notified: Vec::new() }
    }

    /// Minutes from `since` to `now` on the monotonic clock (none when the
    /// clock reads earlier).
    pub open spec fn minutes_away(since: Option<Moment>, now: Moment) -> u128 {
        match since {
            Some(s) => (if now.nanos >= s.nanos { (now.nanos - s.nanos) / 1_000_000_000 / 60 } else { 0 }) as u128,
            None => 0,
        }
    }

    /// What an idle sample at `now` reports.
    pub open spec fn change_at(self, idle_ms: u64, threshold_ms: u64, now: Moment) -> IdleChange {
        if idle_ms >= threshold_ms && !self.was_idle {
            IdleChange::BecameIdle
        } else if idle_ms < threshold_ms && self.was_idle {
            IdleChange::CameBack { idle_minutes: Self::minutes_away(self.idle_since, now) }
        } else {
            IdleChange::Unchanged
        }
    }

    /// The monitor after an idle sample at `now`.
    pub open spec fn after_sample(self, idle_ms: u64, threshold_ms: u64, now: Moment) -> Self {
        if idle_ms >= threshold_ms && !self.was_idle {
            IdleMonitor { was_idle: true, idle_since: Some(now), ..self }
        } else if idle_ms < threshold_ms && self.was_idle {
            IdleMonitor { was_idle: false, idle_since: None, ..self }
        } else {
            self
        }
    }

    /// Takes an idle-time sample at `now`: reports the user going idle
    /// (once per idle period) and coming back (with the minutes away).
    pub fn observe(&mut self, idle_ms: u64, threshold_ms: u64, now: Moment) -> (c: IdleChange)
        ensures
            c == old(self).change_at(idle_ms, threshold_ms, now),
            *final(self) == old(self).after_sample(idle_ms, threshold_ms, now),
    {
        let is_idle = idle_ms >= threshold_ms;
        if is_idle && !self.was_idle {
            self.idle_since = Some(now);
            self.was_idle = true;
            IdleChange::BecameIdle
        } else if !is_idle && self.was_idle {
            let minutes: u128 = match self.idle_since {
                Some(s) => if now.nanos >= s.nanos { (now.nanos - s.nanos) / 1_000_000_000 / 60 } else { 0 },
                None => 0,
            };
            self.was_idle = false;
            self.idle_since = None;
            IdleChange::CameBack { idle_minutes: minutes }
        } else {
            IdleChange::Unchanged
        }
    }

    /// Tracking was paused at the start of an idle period: milestones start
    /// over.
    pub fn auto_paused(&mut self)
        ensures
            final(self).notified@.len() == 0,
            final(self).was_idle == old(self).was_idle,
            final(self).idle_since == old(self).idle_since,
            final(self).wf(),
    {
        self.notified = Vec::new();
    }

    /// While the user is active, checks the current entry (`id` and start
    /// time as stored) for a milestone due at `now`; announces each
    /// (entry, minutes) milestone once. Without a current entry the
    /// announced milestones are forgotten.
    pub fn check_milestone(&mut self, current: Option<(i64, String)>, now: Timestamp) -> (m: Option<i64>)
        requires
            old(self).wf(),
            now.wf(),
        ensures
            final(self).wf(),
            final(self).was_idle == old(self).was_idle,
            final(self).idle_since == old(self).idle_since,
            (final(self).notified@, m) == milestone_step(old(self).notified@, current_view(current), now),
    {
        match current {
            None => {
                self.notified = Vec::new();
                None
            },
            Some((id, started_at)) => {
                match parse_rfc3339(started_at.as_str()) {
                    None => None,
                    Some(started) => self.check_started(id, started, now),
                }
            },
        }
    }

    /// Checks entry `id`, started at `started`, for a whole hour of tracking
    /// reached at `now`, and announces it once.
    pub fn check_started(&mut self, id: i64, started: Timestamp, now: Timestamp) -> (m: Option<i64>)
        requires
            old(self).wf(),
            started.wf(),
            now.wf(),
        ensures
            final(self).wf(),
            final(self).was_idle == old(self).was_idle,
            final(self).idle_since == old(self).idle_since,
            (final(self).notified@, m) == started_step(old(self).notified@, id, started, now),
    {
        let s = whole_seconds_between(&now, &started);
        let minutes: i64 = if s >= 0 { s / 60 } else { -((-s) / 60) };
        if minutes > 0 && minutes % 60 == 0 {
            if contains_pair(&self.notified, id, minutes) {
                None
            } else {
                let ghost before = self.notified@;
                self.notified.push((id, minutes));
                proof {
                    assert forall|i: int, j: int| 0 <= i < j < self.notified@.len() implies #[trigger] self.notified@[i] != #[trigger] self.notified@[j] by {
                        if j == before.len() {
                            assert(self.notified@[i] == before[i]);
                        }
                    }
                }
                Some(minutes)
            }
        } else {
            None
        }
    }
}

fn contains_pair(v: &Vec<(i64, i64)>, a: i64, b: i64) -> (r: bool)
    ensures
        r == v@.contains((a, b)),
{
    let mut i: usize = 0;
    while i < v.len()
        invariant
            i <= v@.len(),
            forall|j: int| 0 <= j < i ==> v@[j] != (a, b),
        decreases v.len() - i,
    {
        if v[i].0 == a && v[i].1 == b {
            assert(v@[i as int] == (a, b));
            return true;
        }
        i = i + 1;
    }
    false
}

/// Milestones fall on whole hours of tracking: a milestone of `m` minutes
/// is announced only when `m` is a positive multiple of 60 and `now` lies
/// within the `m`-th minute after the start (`m` minutes have passed, but
/// not `m + 1`). Conversely, once a positive whole number of hours has
/// passed, the milestone is announced unless it already was.
pub proof fn law_milestones_on_whole_hours(notified: Seq<(i64, i64)>, id: i64, started: Timestamp, now: Timestamp)
    requires
        started.wf(),
        now.wf(),
    ensures
        started_step(notified, id, started, now).1 matches Some(m) ==> {
            &&& m > 0
            &&& m % 60 == 0
            &&& m * 60 <= seconds_between(now, started) < m * 60 + 60
        },
        seconds_between(now, started) >= 3600 && (seconds_between(now, started) / 60) % 60 == 0
            ==> started_step(notified, id, started, now).1 == Some((seconds_between(now, started) / 60) as i64)
                || notified.contains((id, (seconds_between(now, started) / 60) as i64)),
{
    lemma_seconds_between_bounded(now, started);
}

/// The seconds between two valid instants fit comfortably in an `i64`.
proof fn lemma_seconds_between_bounded(later: Timestamp, earlier: Timestamp)
    requires
        later.wf(),
        earlier.wf(),
    ensures
        -4 * secs_bound() < seconds_between(later, earlier) < 4 * secs_bound(),
{
}

/// A milestone check announces something only for a current entry whose
/// start can be read, and then only a whole number of hours after it.
pub proof fn law_milestone_needs_whole_hours(
    notified: Seq<(i64, i64)>,
    current: Option<(i64, Seq<char>)>,
    now: Timestamp,
)
    requires
        now.wf(),
        current matches Some(c) && parsed_instant(c.1) matches Some(s) ==> s.wf(),
    ensures
        milestone_step(notified, current, now).1 matches Some(m) ==> {
            &&& current matches Some(c) && parsed_instant(c.1) matches Some(s) && {
                &&& m > 0
                &&& m % 60 == 0
                &&& m * 60 <= seconds_between(now, s) < m * 60 + 60
            }
        },
{
    match current {
        None => {},
        Some(c) => match parsed_instant(c.1) {
            None => {},
            Some(s) => {
                law_milestones_on_whole_hours(notified, c.0, s, now);
            },
        },
    }
}

/// A milestone is announced once: checking again at the same moment for
/// the same entry announces nothing and changes nothing.
pub proof fn law_milestone_announced_once(
    notified: Seq<(i64, i64)>,
    current: Option<(i64, Seq<char>)>,
    now: Timestamp,
)
    requires
        current is Some,
    ensures
        milestone_step(milestone_step(notified, current, now).0, current, now).1 is None,
        milestone_step(milestone_step(notified, current, now).0, current, now).0 == milestone_step(
            notified,
            current,
            now,
        ).0,
{
    let c = current->0;
    match parsed_instant(c.1) {
        None => {},
        Some(started) => match milestone_due(started, now) {
            Some(due) => {
                if !notified.contains((c.0, due as i64)) {
                    assert(notified.push((c.0, due as i64))[notified.len() as int] == (c.0, due as i64));
                }
            },
            None => {},
        },
    }
}

/// Going idle is reported once per idle period: after a sample at or above
/// the threshold, a further one reports no change; and coming back is
/// reported once, after which an active sample reports no change.
pub proof fn law_idle_transitions_reported_once(m: IdleMonitor, a: u64, b: u64, threshold_ms: u64, t1: Moment, t2: Moment)
    ensures
        a >= threshold_ms && b >= threshold_ms ==> m.after_sample(a, threshold_ms, t1).change_at(b, threshold_ms, t2) == IdleChange::Unchanged,
        a < threshold_ms && b < threshold_ms ==> m.after_sample(a, threshold_ms, t1).change_at(b, threshold_ms, t2) == IdleChange::Unchanged,
        a >= threshold_ms && !m.was_idle ==> m.change_at(a, threshold_ms, t1) == IdleChange::BecameIdle,
{
}

} // verus!
