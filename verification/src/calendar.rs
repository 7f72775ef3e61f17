//! Calendar helpers: short duration labels and month lengths.

use vstd::prelude::*;
use crate::clock::{day_of_month, rfc3339_day_of_month};
use crate::entries::Entry;
use crate::text::{dec_digits, int_text, pad_left, push_char, push_i128, push_padded_left, push_u128};

verus! {

/// The label of `format_duration_short`: from an hour on, the hours as the
/// caller printed them with one decimal, then `h`; whole minutes from a
/// minute on; seconds below that.
pub open spec fn duration_short_text(seconds: int, hours: Seq<char>) -> Seq<char> {
    if seconds >= 3600 {
        hours + seq!['h']
    } else if seconds >= 60 {
        dec_digits((seconds / 60) as nat) + seq!['m']
    } else {
        int_text(seconds) + seq!['s']
    }
}

/// Short human label for a duration in seconds: `1.5h`, `5m` or `45s`.
/// `hours` is the duration in hours with one decimal, as printed from its
/// floating-point value by the caller; it is used from an hour on.
pub fn format_duration_short(seconds: i64, hours: &str) -> (label: String)
    ensures
        label@ == duration_short_text(seconds as int, hours@),
{
    let mut out = String::new();
    if seconds >= 3600 {
        out.append(hours);
        push_char(&mut out, 'h');
    } else if seconds >= 60 {
        push_u128(&mut out, (seconds / 60) as u128);
        push_char(&mut out, 'm');
    } else {
        push_i128(&mut out, seconds as i128);
        push_char(&mut out, 's');
    }
    assert(out@ =~= duration_short_text(seconds as int, hours@));
    out
}

/// Whether `year` is a leap year of the proleptic Gregorian calendar.
pub open spec fn is_leap_year(year: int) -> bool {
    (year % 4 == 0 && year % 100 != 0) || year % 400 == 0
}

/// Number of days of `month` (1 to 12) in `year`.
pub open spec fn month_length(year: int, month: int) -> int {
    if month == 2 {
        if is_leap_year(year) { 29 } else { 28 }
    } else if month == 4 || month == 6 || month == 9 || month == 11 {
        30
    } else {
        31
    }
}

/// The Gregorian month lengths: thirty days have April, June, September
/// and November; February has 29 days in a leap year (every fourth year,
/// but not a century year unless it divides by 400) and 28 otherwise; the
/// other months have 31. The twelve months make a year of 365 or, in a
/// leap year, 366 days.
pub proof fn law_month_lengths(year: int)
    ensures
        month_length(year, 1) == 31,
        month_length(year, 2) == (if is_leap_year(year) { 29int } else { 28int }),
        month_length(year, 3) == 31,
        month_length(year, 4) == 30,
        month_length(year, 5) == 31,
        month_length(year, 6) == 30,
        month_length(year, 7) == 31,
        month_length(year, 8) == 31,
        month_length(year, 9) == 30,
        month_length(year, 10) == 31,
        month_length(year, 11) == 30,
        month_length(year, 12) == 31,
        month_length(year, 1) + month_length(year, 2) + month_length(year, 3) + month_length(year, 4)
            + month_length(year, 5) + month_length(year, 6) + month_length(year, 7) + month_length(year, 8)
            + month_length(year, 9) + month_length(year, 10) + month_length(year, 11) + month_length(year, 12)
            == (if is_leap_year(year) { 366int } else { 365int }),
        is_leap_year(year) <==> (year % 4 == 0 && (year % 100 != 0 || year % 400 == 0)),
        forall|m: int| 1 <= m <= 12 ==> 28 <= #[trigger] month_length(year, m) <= 31,
{
}

/// Number of days in `month` of `year`, the last day for which a calendar
/// date exists.
pub fn days_in_month(year: i32, month: u32) -> (days: u32)
    requires
        1 <= month <= 12,
    ensures
        days == month_length(year as int, month as int),
{
    if month == 2 {
        if (year % 4 == 0 && year % 100 != 0) || year % 400 == 0 {
            29
        } else {
            28
        }
    } else if month == 4 || month == 6 || month == 9 || month == 11 {
        30
    } else {
        31
    }
}

/// Sum of the durations of the items dated on day `d` of the month.
pub open spec fn day_sum(items: Seq<(Option<u32>, i64)>, d: int) -> int
    decreases items.len(),
{
    if items.len() == 0 {
        0
    } else {
        day_sum(items.drop_last(), d) + match items.last().0 {
            Some(k) => if k == d { items.last().1 as int } else { 0 },
            None => 0,
        }
    }
}

/// Bound on a sum of `n` values of 64 bits.
pub open spec fn sum_bound(n: int) -> int {
    n * 9_223_372_036_854_775_808
}

/// A sum of day durations is bounded by the number of items.
proof fn lemma_day_sum_bound(items: Seq<(Option<u32>, i64)>, d: int)
    ensures
        -sum_bound(items.len() as int) <= day_sum(items, d) <= sum_bound(items.len() as int),
    decreases items.len(),
{
    if items.len() > 0 {
        lemma_day_sum_bound(items.drop_last(), d);
    }
}

/// Adds up, for each of the `days` days of a month, the durations of the
/// items dated that day (an item is a day of the month, if known, and a
/// duration in seconds); the result's element `d - 1` is day `d`'s total.
pub fn totals_by_day(days: u32, items: &Vec<(Option<u32>, i64)>) -> (totals: Vec<i128>)
    ensures
        totals@.len() == days,
        forall|k: int| 0 <= k < days ==> #[trigger] totals@[k] == day_sum(items@, k + 1),
{
    let mut totals: Vec<i128> = Vec::new();
    let mut j: u32 = 0;
    while j < days
        invariant
            j <= days,
            totals@.len() == j,
            forall|k: int| 0 <= k < j ==> #[trigger] totals@[k] == 0,
        decreases days - j,
    {
        totals.push(0);
        j = j + 1;
    }
    let mut i: usize = 0;
    while i < items.len()
        invariant
            i <= items@.len(),
            totals@.len() == days,
            forall|k: int| 0 <= k < days ==> #[trigger] totals@[k] == day_sum(items@.subrange(0, i as int), k + 1),
        decreases items.len() - i,
    {
        proof {
            assert(items@.subrange(0, i + 1).drop_last() =~= items@.subrange(0, i as int));
        }
        match items[i].0 {
            Some(day) => {
                if day >= 1 && day <= days {
                    let k = (day - 1) as usize;
                    let cur = totals[k];
                    proof {
                        lemma_day_sum_bound(items@.subrange(0, i as int), day as int);
                        assert(sum_bound(i as int) + 9_223_372_036_854_775_808 <= sum_bound(usize::MAX as int));
                    }
                    totals.set(k, cur + items[i].1 as i128);
                }
            },
            None => {},
        }
        i = i + 1;
    }
    assert(items@.subrange(0, items@.len() as int) =~= items@);
    totals
}

/// The dated durations of entries: each entry's day of the month (read in
/// its own offset) and its duration (zero while running).
pub open spec fn dated_items(entries: Seq<Entry>) -> Seq<(Option<u32>, i64)> {
    entries.map_values(|e: Entry| (rfc3339_day_of_month(e.started_at@), match e.duration_seconds {
        Some(d) => d,
        None => 0,
    }))
}

/// The time tracked on each of the `days` days of a month by the entries,
/// each counted on the day of the month of its start.
pub fn calendar_day_totals(days: u32, entries: &Vec<Entry>) -> (totals: Vec<i128>)
    ensures
        totals@.len() == days,
        forall|k: int| 0 <= k < days ==> #[trigger] totals@[k] == day_sum(dated_items(entries@), k + 1),
{
    let mut items: Vec<(Option<u32>, i64)> = Vec::new();
    let mut i: usize = 0;
    while i < entries.len()
        invariant
            i <= entries@.len(),
            items@ == dated_items(entries@.subrange(0, i as int)),
        decreases entries.len() - i,
    {
        let d = day_of_month(entries[i].started_at.as_str());
        let s: i64 = match entries[i].duration_seconds {
            Some(x) => x,
            None => 0,
        };
        items.push((d, s));
        i = i + 1;
        assert(items@ =~= dated_items(entries@.subrange(0, i as int)));
    }
    assert(entries@.subrange(0, entries@.len() as int) =~= entries@);
    totals_by_day(days, &items)
}

/// The title of the calendar of `month` in `year`.
pub open spec fn calendar_title_text(year: i32, month: u32) -> Seq<char> {
    "  "@ + int_text(year as int) + "-"@ + dec_digits(month as nat)
}

/// The title line of the month calendar (`  2026-6`).
pub fn calendar_title(year: i32, month: u32) -> (s: String)
    ensures
        s@ == calendar_title_text(year, month),
{
    let mut s = String::from_str("  ");
    push_i128(&mut s, year as i128);
    s.append("-");
    push_u128(&mut s, month as u128);
    assert(s@ =~= calendar_title_text(year, month));
    s
}

/// The line of day `d` in the calendar: the day number right-aligned in
/// three columns and a space.
pub open spec fn calendar_day_text(d: int) -> Seq<char> {
    pad_left(dec_digits(d as nat), 3, ' ') + " "@
}

/// The day lines of the month calendar, each marked when time was tracked
/// that day.
pub fn calendar_day_lines(totals: &Vec<i128>) -> (lines: Vec<(String, bool)>)
    ensures
        lines@.len() == totals@.len(),
        forall|k: int| 0 <= k < totals@.len() ==> (#[trigger] lines@[k]).0@ == calendar_day_text(k + 1)
            && lines@[k].1 == (totals@[k] > 0),
{
    let mut lines: Vec<(String, bool)> = Vec::new();
    let mut i: usize = 0;
    while i < totals.len()
        invariant
            i <= totals@.len(),
            lines@.len() == i,
            forall|k: int| 0 <= k < i ==> (#[trigger] lines@[k]).0@ == calendar_day_text(k + 1)
                && lines@[k].1 == (totals@[k] > 0),
        decreases totals.len() - i,
    {
        let mut num = String::new();
        push_u128(&mut num, (i + 1) as u128);
        let mut s = String::new();
        push_padded_left(&mut s, num.as_str(), 3);
        s.append(" ");
        assert(s@ =~= calendar_day_text(i + 1));
        lines.push((s, totals[i] > 0));
        i = i + 1;
    }
    lines
}

} // verus!
