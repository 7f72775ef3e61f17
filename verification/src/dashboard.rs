//! Decisions of the web dashboard and the charts it shares with the
//! terminal UI: starting a timer from the browser, chart labels, and which
//! totals a chart shows.

use vstd::prelude::*;
use crate::text::{join, join_strings, split_char, split_on, trim, trim_str, views};

verus! {

/// What a start request from the dashboard leads to.
#[derive(Debug)]
pub enum StartDecision {
    /// The name is blank: refused.
    EmptyName,
    /// A timer already runs: nothing is started.
    AlreadyTracking,
    /// Start a timer under this (trimmed) name.
    Start(String),
}

/// Decides a start request: the name is trimmed and must not be empty, and
/// nothing is started while a timer runs.
pub fn decide_start(name: &str, already_tracking: bool) -> (d: StartDecision)
    ensures
        trim(name@).len() == 0 ==> d is EmptyName,
        trim(name@).len() > 0 && already_tracking ==> d is AlreadyTracking,
        trim(name@).len() > 0 && !already_tracking ==> (d matches StartDecision::Start(n) && n@ == trim(name@)),
{
    let n = trim_str(name);
    if n.as_str().unicode_len() == 0 {
        return StartDecision::EmptyName;
    }
    if already_tracking {
        return StartDecision::AlreadyTracking;
    }
    StartDecision::Start(n)
}

/// The message for a refused start.
pub fn empty_name_message() -> (m: String)
    ensures
        m@ == "Task name must not be empty."@,
{
    String::from_str("Task name must not be empty.")
}

/// A `YYYY-MM-DD` day shortened to `MM-DD`: everything after the first
/// `-` (nothing when there is none).
pub open spec fn short_day_text(day: Seq<char>) -> Seq<char> {
    join(split_on(day, '-').skip(1), "-"@)
}

/// Shortens a day label for a chart axis (`2026-06-01` becomes `06-01`).
pub fn short_day(day: &str) -> (s: String)
    ensures
        s@ == short_day_text(day@),
{
    let pieces = split_char(day, '-');
    proof {
        crate::text::lemma_split_nonempty(day@, '-');
    }
    let mut rest: Vec<String> = Vec::new();
    let mut i: usize = 1;
    while i < pieces.len()
        invariant
            1 <= i <= pieces@.len(),
            views(rest@) == views(pieces@).subrange(1, i as int),
        decreases pieces.len() - i,
    {
        let ghost before = views(rest@);
        let piece = pieces[i].clone();
        rest.push(piece);
        assert(views(rest@) =~= before.push(pieces@[i as int]@));
        assert(views(pieces@)[i as int] == pieces@[i as int]@);
        assert(views(rest@) =~= views(pieces@).subrange(1, i + 1));
        i = i + 1;
    }
    assert(views(pieces@).subrange(1, pieces@.len() as int) =~= views(pieces@).skip(1));
    join_strings(&rest, "-")
}

/// The first `limit` totals that are positive, in order.
pub open spec fn positive_totals_spec(stats: Seq<(String, i64)>, limit: int) -> Seq<(String, i64)> {
    let p = stats.filter(|s: (String, i64)| s.1 > 0);
    if p.len() > limit { p.take(limit) } else { p }
}

/// Keeps the totals above zero, at most `limit` of them, in order.
pub fn positive_totals(stats: &Vec<(String, i64)>, limit: usize) -> (r: Vec<(String, i64)>)
    ensures
        r@ == positive_totals_spec(stats@, limit as int),
{
    let mut out: Vec<(String, i64)> = Vec::new();
    let mut i: usize = 0;
    while i < stats.len()
        invariant
            i <= stats@.len(),
            out@ == stats@.subrange(0, i as int).filter(|s: (String, i64)| s.1 > 0),
        decreases stats.len() - i,
    {
        proof {
            assert(stats@.subrange(0, i + 1).drop_last() =~= stats@.subrange(0, i as int));
            reveal_with_fuel(Seq::filter, 1);
        }
        if stats[i].1 > 0 {
            out.push((stats[i].0.clone(), stats[i].1));
        }
        i = i + 1;
    }
    assert(stats@.subrange(0, stats@.len() as int) =~= stats@);
    if out.len() > limit {
        out.truncate(limit);
        assert(out@ =~= positive_totals_spec(stats@, limit as int));
    }
    out
}

} // verus!
