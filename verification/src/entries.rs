//! Time entries and the rules the store applies to them: who may see an
//! entry, how a running entry is stopped, how an edit is checked and what it
//! stores, and when an entry or a project may be deleted.

use vstd::prelude::*;
use crate::clock::{clamped_seconds, elapsed_clamped, parse_rfc3339, parsed_instant, read_rfc3339,
    rfc3339_error_text, seconds_between,
    utc_rfc3339_text, whole_seconds_between, Timestamp};
use crate::text::{int_text, push_i128};

verus! {

/// A tracked time entry as stored.
#[derive(Clone, Debug)]
pub struct Entry {
    pub id: i64,
    pub name: String,
    pub tags: Option<String>,
    pub project_id: Option<i64>,
    pub user_id: Option<i64>,
    /// RFC 3339 start time.
    pub started_at: String,
    /// RFC 3339 end time; `None` while the entry runs.
    pub ended_at: Option<String>,
    pub duration_seconds: Option<i64>,
}

/// Why an operation on entries or projects was refused.
#[derive(Debug)]
pub enum EntryError {
    /// The entry belongs to another user (and the caller is no admin).
    NotYours(i64),
    /// No entry has this id.
    NotFound(i64),
    /// The entry is the one currently tracked and may not be edited.
    EditCurrent,
    /// The entry is the one currently tracked and may not be deleted.
    DeleteCurrent,
    /// The entry is still running and may not be edited.
    EditOpen,
    /// A time is not an RFC 3339 date-time; chrono's message says why.
    InvalidTime(String),
    /// The new end lies before the new start.
    EndBeforeStart,
    /// The project still has time entries.
    ProjectInUse,
    /// A moment lies outside the range of calendar dates.
    TimeOutOfRange,
}

impl EntryError {
    /// The message shown to the user.
    pub fn message(&self) -> (m: String)
        ensures
            self matches EntryError::NotYours(id) ==> m@ == "Entry "@ + int_text(id as int) + " does not belong to you."@,
            self matches EntryError::NotFound(id) ==> m@ == "Entry "@ + int_text(id as int) + " not found"@,
            self is EditCurrent ==> m@ == "Cannot edit the currently tracking entry. Stop it first."@,
            self is DeleteCurrent ==> m@ == "Cannot delete the currently tracking entry. Stop it first."@,
            self is EditOpen ==> m@ == "Cannot edit an open entry. Stop it first."@,
            self matches EntryError::InvalidTime(t) ==> m@ == t@,
            self is EndBeforeStart ==> m@ == "ended_at must not be before started_at"@,
            self is ProjectInUse ==> m@ == "Cannot delete project with existing time entries."@,
            self is TimeOutOfRange ==> m@ == "Time out of range"@,
    {
        match self {
            EntryError::NotYours(id) => {
                let mut m = String::from_str("Entry ");
                push_i128(&mut m, *id as i128);
                m.append(" does not belong to you.");
                m
            },
            EntryError::NotFound(id) => {
                let mut m = String::from_str("Entry ");
                push_i128(&mut m, *id as i128);
                m.append(" not found");
                m
            },
            EntryError::EditCurrent => String::from_str("Cannot edit the currently tracking entry. Stop it first."),
            EntryError::DeleteCurrent => String::from_str("Cannot delete the currently tracking entry. Stop it first."),
            EntryError::EditOpen => String::from_str("Cannot edit an open entry. Stop it first."),
            EntryError::InvalidTime(t) => t.clone(),
            EntryError::EndBeforeStart => String::from_str("ended_at must not be before started_at"),
            EntryError::ProjectInUse => String::from_str("Cannot delete project with existing time entries."),
            EntryError::TimeOutOfRange => String::from_str("Time out of range"),
        }
    }
}

/// Whether a user sees an entry: admins see all entries, members their own.
pub open spec fn visible(entry_user: Option<i64>, user_id: i64, is_admin: bool) -> bool {
    is_admin || entry_user == Some(user_id)
}

/// Checks that the user may see, edit or delete the entry.
pub fn check_entry_access(entry: &Entry, user_id: i64, is_admin: bool) -> (r: Result<(), EntryError>)
    ensures
        r is Ok <==> visible(entry.user_id, user_id, is_admin),
        r is Err ==> (r matches Err(EntryError::NotYours(id)) && id == entry.id),
{
    let mine = match entry.user_id {
        Some(u) => u == user_id,
        None => false,
    };
    if !is_admin && !mine {
        return Err(EntryError::NotYours(entry.id));
    }
    Ok(())
}

/// The entries the user sees, in order.
pub fn visible_entries(entries: Vec<Entry>, user_id: i64, is_admin: bool) -> (out: Vec<Entry>)
    ensures
        out@ == entries@.filter(|e: Entry| visible(e.user_id, user_id, is_admin)),
{
    let mut out: Vec<Entry> = Vec::new();
    let mut i: usize = 0;
    let ghost all = entries@;
    let n = entries.len();
    let mut rest = entries;
    assert(rest@ =~= all.subrange(0, n as int));
    while i < n
        invariant
            n == all.len(),
            i <= all.len(),
            rest@ == all.subrange(i as int, all.len() as int),
            out@ == all.subrange(0, i as int).filter(|e: Entry| visible(e.user_id, user_id, is_admin)),
        decreases all.len() - i,
    {
        let e = rest.remove(0);
        proof {
            assert(all.subrange(0, i + 1).drop_last() =~= all.subrange(0, i as int));
            assert(e == all[i as int]);
            reveal_with_fuel(Seq::filter, 1);
        }
        let keep = is_admin || match e.user_id {
            Some(u) => u == user_id,
            None => false,
        };
        if keep {
            out.push(e);
        }
        i = i + 1;
        assert(rest@ =~= all.subrange(i as int, all.len() as int));
    }
    assert(all.subrange(0, all.len() as int) =~= all);
    out
}

/// Sum of the recorded durations of the entries (running entries count as
/// zero).
pub open spec fn total_seconds(entries: Seq<Entry>) -> int
    decreases entries.len(),
{
    if entries.len() == 0 {
        0
    } else {
        total_seconds(entries.drop_last()) + match entries.last().duration_seconds {
            Some(d) => d as int,
            None => 0,
        }
    }
}

/// Adds up the durations of the entries, counting running ones as zero.
pub fn total_duration(entries: &Vec<Entry>) -> (t: i64)
    requires
        forall|k: int| 0 <= k <= entries@.len() ==> i64::MIN <= #[trigger] total_seconds(entries@.subrange(0, k)) <= i64::MAX,
    ensures
        t == total_seconds(entries@),
{
    let mut t: i64 = 0;
    let mut i: usize = 0;
    assert(entries@.subrange(0, 0) =~= Seq::<Entry>::empty());
    while i < entries.len()
        invariant
            i <= entries@.len(),
            t == total_seconds(entries@.subrange(0, i as int)),
            forall|k: int| 0 <= k <= entries@.len() ==> i64::MIN <= #[trigger] total_seconds(entries@.subrange(0, k)) <= i64::MAX,
        decreases entries.len() - i,
    {
        assert(entries@.subrange(0, i + 1).drop_last() =~= entries@.subrange(0, i as int));
        let ghost next = total_seconds(entries@.subrange(0, i + 1));
        assert(i64::MIN <= next <= i64::MAX);
        let d = match entries[i].duration_seconds {
            Some(d) => d,
            None => 0,
        };
        t = t + d;
        i = i + 1;
    }
    assert(entries@.subrange(0, entries@.len() as int) =~= entries@);
    t
}

/// Seconds to record for an entry started at `started_at` and stopped at
/// `now`: the elapsed time, never negative.
pub fn stop_duration(started_at: &str, now: &Timestamp) -> (r: Result<i64, EntryError>)
    requires
        now.wf(),
    ensures
        parsed_instant(started_at@) matches Some(s) ==> r == Ok::<i64, EntryError>(clamped_seconds(*now, s) as i64),
        parsed_instant(started_at@) is None ==> (r matches Err(EntryError::InvalidTime(t)) && t@ == rfc3339_error_text(started_at@)),
        r matches Ok(d) ==> d >= 0,
{
    match read_rfc3339(started_at) {
        Ok(s) => Ok(elapsed_clamped(now, &s)),
        Err(m) => Err(EntryError::InvalidTime(m)),
    }
}

/// The entry as stopped at `now`: ended then, with the elapsed time
/// (never negative) as its duration.
pub fn stopped_entry(entry: Entry, now: &Timestamp) -> (r: Result<Entry, EntryError>)
    requires
        now.wf(),
    ensures
        utc_rfc3339_text(now.secs, now.nanos) is None ==> r matches Err(EntryError::TimeOutOfRange),
        utc_rfc3339_text(now.secs, now.nanos) is Some && parsed_instant(entry.started_at@) is None ==> (r matches Err(EntryError::InvalidTime(t)) && t@ == rfc3339_error_text(entry.started_at@)),
        parsed_instant(entry.started_at@) matches Some(s) ==> (utc_rfc3339_text(now.secs, now.nanos) is Some ==> (r matches Ok(e) && {
            &&& e.id == entry.id && e.name == entry.name && e.tags == entry.tags
            &&& e.project_id == entry.project_id && e.user_id == entry.user_id
            &&& e.started_at == entry.started_at
            &&& e.ended_at matches Some(t) && utc_rfc3339_text(now.secs, now.nanos) == Some(t@)
            &&& e.duration_seconds == Some(clamped_seconds(*now, s) as i64)
        })),
{
    let end = match now.rfc3339() {
        Some(t) => t,
        None => return Err(EntryError::TimeOutOfRange),
    };
    let d = stop_duration(entry.started_at.as_str(), now)?;
    Ok(Entry { ended_at: Some(end), duration_seconds: Some(d), ..entry })
}

/// Whether `e` is `entry` stopped at `now`: ended then, with the elapsed
/// time since its start (never negative) as its duration, all else kept.
pub open spec fn is_stopped_at(e: Entry, entry: Entry, now: Timestamp) -> bool {
    &&& parsed_instant(entry.started_at@) is Some
    &&& e.id == entry.id && e.name == entry.name && e.tags == entry.tags
    &&& e.project_id == entry.project_id && e.user_id == entry.user_id
    &&& e.started_at == entry.started_at
    &&& e.ended_at matches Some(t) && utc_rfc3339_text(now.secs, now.nanos) == Some(t@)
    &&& e.duration_seconds == Some(clamped_seconds(now, parsed_instant(entry.started_at@).unwrap()) as i64)
}

/// Stops every open entry at `now`, in order, as starting a new task does:
/// returns the entries stopped, and the error that halted the work at the
/// first entry that could not be stopped (the entries before it stay
/// stopped).
pub fn close_entries(open: Vec<Entry>, now: &Timestamp) -> (r: (Vec<Entry>, Option<EntryError>))
    requires
        now.wf(),
    ensures
        r.0@.len() <= open@.len(),
        forall|i: int| 0 <= i < r.0@.len() ==> #[trigger] is_stopped_at(r.0@[i], open@[i], *now),
        r.1 is None <==> r.0@.len() == open@.len(),
        r.1 matches Some(err) ==> {
            let bad = open@[r.0@.len() as int];
            if utc_rfc3339_text(now.secs, now.nanos) is None {
                err is TimeOutOfRange
            } else {
                parsed_instant(bad.started_at@) is None && (err matches EntryError::InvalidTime(t) && t@ == rfc3339_error_text(bad.started_at@))
            }
        },
{
    let ghost all = open@;
    let n = open.len();
    let mut rest = open;
    let mut done: Vec<Entry> = Vec::new();
    let mut i: usize = 0;
    assert(rest@ =~= all.subrange(0, n as int));
    while i < n
        invariant
            n == all.len(),
            all == open@,
            i <= n,
            done@.len() == i,
            rest@ == all.subrange(i as int, n as int),
            now.wf(),
            forall|k: int| 0 <= k < i ==> #[trigger] is_stopped_at(done@[k], all[k], *now),
        decreases n - i,
    {
        let e = rest.remove(0);
        assert(e == all[i as int]);
        match stopped_entry(e, now) {
            Ok(s) => {
                done.push(s);
            },
            Err(err) => {
                return (done, Some(err));
            },
        }
        i = i + 1;
        assert(rest@ =~= all.subrange(i as int, n as int));
    }
    (done, None)
}

/// After closing, no entry is left running and none has a negative
/// duration.
pub proof fn law_closed_entries_not_running(e: Entry, entry: Entry, now: Timestamp)
    requires
        is_stopped_at(e, entry, now),
        now.wf(),
        parsed_instant(entry.started_at@)->0.wf(),
    ensures
        e.ended_at is Some,
        e.duration_seconds is Some,
        e.duration_seconds.unwrap() >= 0,
{
    let s = parsed_instant(entry.started_at@)->0;
    let frac = now.nanos - s.nanos;
    assert(-2 <= frac / 1_000_000_000 <= 1);
    assert(0 <= clamped_seconds(now, s) < 100_000_000_000_000);
}

/// The duration stored for a completed entry: negative durations (clock
/// skew) are stored as zero.
pub fn stored_duration(duration: i64) -> (d: i64)
    ensures
        d == (if duration < 0 { 0 } else { duration }),
        d >= 0,
{
    if duration < 0 { 0 } else { duration }
}

/// The elapsed seconds shown for the running entry: from its start to
/// `now`, or none when the start cannot be read.
pub fn running_seconds(started_at: &str, now: &Timestamp) -> (n: i64)
    requires
        now.wf(),
    ensures
        parsed_instant(started_at@) matches Some(s) ==> n == seconds_between(*now, s),
        parsed_instant(started_at@) is None ==> n == 0,
{
    match parse_rfc3339(started_at) {
        Some(s) => whole_seconds_between(now, &s),
        None => 0,
    }
}

/// What an edit stores.
pub struct EntryUpdate {
    pub name: String,
    pub tags: Option<String>,
    /// Start time, rewritten in UTC.
    pub started_at: String,
    /// End time, rewritten in UTC.
    pub ended_at: String,
    pub duration_seconds: i64,
}

/// The given value, or the stored one when none is given.
pub open spec fn or_keep(given: Option<&str>, kept: Seq<char>) -> Seq<char> {
    match given {
        Some(g) => g@,
        None => kept,
    }
}

/// The characters of an optional string.
pub open spec fn opt_chars(o: Option<String>) -> Option<Seq<char>> {
    match o {
        Some(s) => Some(s@),
        None => None,
    }
}

/// What editing the stored entry `e` yields: refused while it runs, when a
/// time does not parse, or when the end precedes the start; otherwise the
/// merged fields, both times in UTC, and the duration between them.
pub open spec fn edit_result(
    e: Entry,
    name: Option<&str>,
    tags: Option<&str>,
    started_at: Option<&str>,
    ended_at: Option<&str>,
    r: Result<EntryUpdate, EntryError>,
) -> bool {
    let s_text = or_keep(started_at, e.started_at@);
    let e_text = or_keep(ended_at, opt_chars(e.ended_at).unwrap_or(Seq::empty()));
    if e.ended_at is None {
        r matches Err(EntryError::EditOpen)
    } else if parsed_instant(s_text) is None {
        r matches Err(EntryError::InvalidTime(t)) && t@ == rfc3339_error_text(s_text)
    } else if parsed_instant(e_text) is None {
        r matches Err(EntryError::InvalidTime(t)) && t@ == rfc3339_error_text(e_text)
    } else if parsed_instant(e_text).unwrap().before(parsed_instant(s_text).unwrap()) {
        r matches Err(EntryError::EndBeforeStart)
    } else {
        r matches Ok(u) && {
            let s = parsed_instant(s_text).unwrap();
            let f = parsed_instant(e_text).unwrap();
            &&& u.name@ == or_keep(name, e.name@)
            &&& opt_chars(u.tags) == match tags {
                Some(t) => Some(t@),
                None => opt_chars(e.tags),
            }
            &&& utc_rfc3339_text(s.secs, s.nanos) == Some(u.started_at@)
            &&& utc_rfc3339_text(f.secs, f.nanos) == Some(u.ended_at@)
            &&& u.duration_seconds == seconds_between(f, s)
        }
    }
}

fn pick(given: Option<&str>, kept: &String) -> (s: String)
    ensures
        s@ == or_keep(given, kept@),
{
    match given {
        Some(g) => String::from_str(g),
        None => kept.clone(),
    }
}

/// Checks an edit of entry `id` and computes what it stores. `is_current`
/// tells whether the entry is the one being tracked and `existing` is the
/// entry as stored. Fields not given keep their stored value; the times are
/// re-read, must not be reversed, and give the new duration.
pub fn plan_entry_update(
    id: i64,
    is_current: bool,
    existing: Option<Entry>,
    name: Option<&str>,
    tags: Option<&str>,
    started_at: Option<&str>,
    ended_at: Option<&str>,
) -> (r: Result<EntryUpdate, EntryError>)
    ensures
        is_current ==> r matches Err(EntryError::EditCurrent),
        !is_current && existing is None ==> (r matches Err(EntryError::NotFound(i)) && i == id),
        existing matches Some(e) ==> (!is_current ==> edit_result(e, name, tags, started_at, ended_at, r)),
        r matches Ok(u) ==> u.duration_seconds >= 0,
{
    if is_current {
        return Err(EntryError::EditCurrent);
    }
    let entry = match existing {
        Some(e) => e,
        None => return Err(EntryError::NotFound(id)),
    };
    let old_end = match &entry.ended_at {
        Some(t) => t.clone(),
        None => return Err(EntryError::EditOpen),
    };
    let final_name = pick(name, &entry.name);
    let final_tags = match tags {
        Some(t) => Some(String::from_str(t)),
        None => entry.tags.clone(),
    };
    let final_started = pick(started_at, &entry.started_at);
    let final_ended = pick(ended_at, &old_end);
    let started = match read_rfc3339(final_started.as_str()) {
        Ok(t) => t,
        Err(m) => return Err(EntryError::InvalidTime(m)),
    };
    let ended = match read_rfc3339(final_ended.as_str()) {
        Ok(t) => t,
        Err(m) => return Err(EntryError::InvalidTime(m)),
    };
    let duration = span_seconds(&started, &ended)?;
    Ok(EntryUpdate {
        name: final_name,
        tags: final_tags,
        started_at: started.to_rfc3339(),
        ended_at: ended.to_rfc3339(),
        duration_seconds: duration,
    })
}

/// The seconds from `started` to `ended` of an edited entry, refused when
/// the end comes before the start.
pub fn span_seconds(started: &Timestamp, ended: &Timestamp) -> (r: Result<i64, EntryError>)
    requires
        started.wf(),
        ended.wf(),
    ensures
        ended.before(*started) ==> r matches Err(EntryError::EndBeforeStart),
        !ended.before(*started) ==> r == Ok::<i64, EntryError>(seconds_between(*ended, *started) as i64),
        r matches Ok(d) ==> d >= 0,
{
    if ended.is_before(started) {
        return Err(EntryError::EndBeforeStart);
    }
    let d = whole_seconds_between(ended, started);
    proof {
        crate::clock::lemma_not_before_nonnegative(*ended, *started);
    }
    Ok(d)
}

/// Checks that entry may be deleted: not while it is being tracked.
pub fn check_delete_allowed(is_current: bool) -> (r: Result<(), EntryError>)
    ensures
        r is Ok <==> !is_current,
        r is Err ==> r matches Err(EntryError::DeleteCurrent),
{
    if is_current {
        return Err(EntryError::DeleteCurrent);
    }
    Ok(())
}

/// The outcome of deleting entry `id` given the number of rows removed:
/// nothing removed means there was no such entry.
pub fn check_deleted(id: i64, removed: usize) -> (r: Result<(), EntryError>)
    ensures
        r is Ok <==> removed > 0,
        r is Err ==> (r matches Err(EntryError::NotFound(i)) && i == id),
{
    if removed == 0 {
        return Err(EntryError::NotFound(id));
    }
    Ok(())
}

/// A project may be deleted only when no entry refers to it.
pub fn check_project_delete(entry_count: i64) -> (r: Result<(), EntryError>)
    ensures
        r is Ok <==> entry_count <= 0,
        r is Err ==> r matches Err(EntryError::ProjectInUse),
{
    if entry_count > 0 {
        return Err(EntryError::ProjectInUse);
    }
    Ok(())
}

} // verus!
