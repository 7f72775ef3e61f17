//! The text the command line prints: today's entries, one entry's details,
//! the days of the week view, the time report and the team's users.

use vstd::prelude::*;
use crate::calendar::{duration_short_text, format_duration_short};
use crate::entries::{total_duration, total_seconds, visible, Entry};
use crate::export::duration_or_zero;
use crate::text::{int_text, pad_right, push_i128, push_padded_right, views};

verus! {

/// The characters of an optional text, or `-` when absent.
pub open spec fn or_dash(o: Option<String>) -> Seq<char> {
    match o {
        Some(s) => s@,
        None => "-"@,
    }
}

/// Appends an optional text, or `-` when absent.
fn push_or_dash(out: &mut String, o: &Option<String>)
    ensures
        final(out)@ == old(out)@ + or_dash(*o),
{
    match o {
        Some(s) => out.append(s.as_str()),
        None => {
            proof {
                reveal_strlit("-");
            }
            out.append("-");
        },
    }
}

/// The header of the entry tables: `NAME` in thirty columns, `DURATION` in
/// ten, then `TAGS`.
pub open spec fn table_header() -> Seq<char> {
    pad_right("NAME"@, 30, ' ') + " "@ + pad_right("DURATION"@, 10, ' ') + " TAGS"@
}

fn push_table_header(out: &mut String)
    ensures
        final(out)@ == old(out)@ + table_header(),
{
    push_padded_right(out, "NAME", 30);
    out.append(" ");
    push_padded_right(out, "DURATION", 10);
    out.append(" TAGS");
    assert(final(out)@ =~= old(out)@ + table_header());
}

/// The duration of an entry as `<seconds>s` (0 while it runs).
pub open spec fn seconds_label(e: Entry) -> Seq<char> {
    int_text(duration_or_zero(e.duration_seconds)) + "s"@
}

/// A row of today's table: the name in thirty columns, the duration in
/// seconds in ten, then the tags (or `-`).
pub open spec fn today_row(e: Entry) -> Seq<char> {
    pad_right(e.name@, 30, ' ') + " "@ + pad_right(seconds_label(e), 10, ' ') + " "@ + or_dash(e.tags)
}

/// What `today` prints: a notice when there are no entries, else the
/// header and one row per entry.
pub open spec fn today_text(entries: Seq<Entry>) -> Seq<Seq<char>> {
    if entries.len() == 0 {
        seq!["No entries today."@]
    } else {
        seq![table_header()] + entries.map_values(|e: Entry| today_row(e))
    }
}

fn today_row_string(e: &Entry) -> (s: String)
    ensures
        s@ == today_row(*e),
{
    let mut dur = String::new();
    push_i128(&mut dur, match e.duration_seconds {
        Some(d) => d as i128,
        None => 0,
    });
    dur.append("s");
    assert(dur@ =~= seconds_label(*e));
    let mut s = String::new();
    push_padded_right(&mut s, e.name.as_str(), 30);
    s.append(" ");
    push_padded_right(&mut s, dur.as_str(), 10);
    s.append(" ");
    push_or_dash(&mut s, &e.tags);
    assert(s@ =~= today_row(*e));
    s
}

/// The lines of the `today` command for the entries listed.
pub fn today_lines(entries: &Vec<Entry>) -> (lines: Vec<String>)
    ensures
        views(lines@) == today_text(entries@),
{
    let mut lines: Vec<String> = Vec::new();
    if entries.len() == 0 {
        lines.push(String::from_str("No entries today."));
        assert(views(lines@) =~= today_text(entries@));
        return lines;
    }
    let mut h = String::new();
    push_table_header(&mut h);
    lines.push(h);
    let mut i: usize = 0;
    while i < entries.len()
        invariant
            i <= entries@.len(),
            views(lines@) == seq![table_header()] + entries@.subrange(0, i as int).map_values(|e: Entry| today_row(e)),
        decreases entries.len() - i,
    {
        let r = today_row_string(&entries[i]);
        let ghost before = views(lines@);
        lines.push(r);
        assert(views(lines@) =~= before.push(today_row(entries@[i as int])));
        assert(entries@.subrange(0, i + 1).map_values(|e: Entry| today_row(e)) =~= entries@.subrange(
            0,
            i as int,
        ).map_values(|e: Entry| today_row(e)).push(today_row(entries@[i as int])));
        i = i + 1;
    }
    assert(entries@.subrange(0, entries@.len() as int) =~= entries@);
    lines
}

/// What `show` prints for entry `id`: its fields, or a notice that it does
/// not exist.
pub open spec fn entry_detail_text(id: i64, e: Option<Entry>) -> Seq<Seq<char>> {
    match e {
        None => seq!["Entry "@ + int_text(id as int) + " not found."@],
        Some(e) => seq![
            "Entry "@ + int_text(e.id as int) + ":"@,
            "  Name:     "@ + e.name@,
            "  Tags:     "@ + or_dash(e.tags),
            "  Started:  "@ + e.started_at@,
            "  Ended:    "@ + match e.ended_at {
                Some(t) => t@,
                None => "(running)"@,
            },
            "  Duration: "@ + match e.duration_seconds {
                Some(d) => int_text(d as int),
                None => "-"@,
            } + "s"@,
        ],
    }
}

/// The lines of the `show` command for entry `id`, as found (or not).
pub fn entry_detail_lines(id: i64, e: Option<&Entry>) -> (lines: Vec<String>)
    ensures
        views(lines@) == entry_detail_text(id, match e { Some(x) => Some(*x), None => None }),
{
    let mut lines: Vec<String> = Vec::new();
    match e {
        None => {
            let mut l = String::from_str("Entry ");
            push_i128(&mut l, id as i128);
            l.append(" not found.");
            lines.push(l);
        },
        Some(e) => {
            let mut l0 = String::from_str("Entry ");
            push_i128(&mut l0, e.id as i128);
            l0.append(":");
            let mut l1 = String::from_str("  Name:     ");
            l1.append(e.name.as_str());
            let mut l2 = String::from_str("  Tags:     ");
            push_or_dash(&mut l2, &e.tags);
            let mut l3 = String::from_str("  Started:  ");
            l3.append(e.started_at.as_str());
            let mut l4 = String::from_str("  Ended:    ");
            match &e.ended_at {
                Some(t) => l4.append(t.as_str()),
                None => l4.append("(running)"),
            }
            let mut l5 = String::from_str("  Duration: ");
            match e.duration_seconds {
                Some(d) => push_i128(&mut l5, d as i128),
                None => {
                    proof {
                        reveal_strlit("-");
                    }
                    l5.append("-");
                },
            }
            l5.append("s");
            lines.push(l0);
            lines.push(l1);
            lines.push(l2);
            lines.push(l3);
            lines.push(l4);
            lines.push(l5);
        },
    }
    assert(views(lines@) =~= entry_detail_text(id, match e { Some(x) => Some(*x), None => None }));
    lines
}

/// The entries (each with its hours text) the user sees.
pub open spec fn visible_pairs(entries: Seq<(Entry, String)>, user_id: i64, is_admin: bool) -> Seq<(Entry, String)> {
    entries.filter(|p: (Entry, String)| visible(p.0.user_id, user_id, is_admin))
}

/// The entries of a list of (entry, hours text) pairs.
pub open spec fn entries_of(pairs: Seq<(Entry, String)>) -> Seq<Entry> {
    pairs.map_values(|p: (Entry, String)| p.0)
}

/// A line of the week view for one entry, with its duration in hours as
/// printed by the caller.
pub open spec fn week_entry_line(e: Entry, hours: Seq<char>) -> Seq<char> {
    "  \u{2022} "@ + e.name@ + " ("@ + duration_short_text(duration_or_zero(e.duration_seconds), hours) + ") ["@
        + or_dash(e.tags) + "]"@
}

/// What the week view prints for one day: nothing for a member who has no
/// entry that day; else the day with its total, then a line per entry the
/// user sees.
pub open spec fn week_day_text(
    date: Seq<char>,
    entries: Seq<(Entry, String)>,
    total_hours: Seq<char>,
    user_id: i64,
    is_admin: bool,
) -> Seq<Seq<char>> {
    let v = visible_pairs(entries, user_id, is_admin);
    if v.len() == 0 && !is_admin {
        Seq::empty()
    } else {
        seq![date + " \u{2014} total "@ + duration_short_text(total_seconds(entries_of(v)), total_hours)]
            + v.map_values(|p: (Entry, String)| week_entry_line(p.0, p.1@))
    }
}

fn week_entry_string(e: &Entry, hours: &str) -> (s: String)
    ensures
        s@ == week_entry_line(*e, hours@),
{
    let mut s = String::from_str("  \u{2022} ");
    s.append(e.name.as_str());
    s.append(" (");
    let d = format_duration_short(match e.duration_seconds {
        Some(x) => x,
        None => 0,
    }, hours);
    s.append(d.as_str());
    s.append(") [");
    push_or_dash(&mut s, &e.tags);
    s.append("]");
    assert(s@ =~= week_entry_line(*e, hours@));
    s
}

/// The lines of the week view for the day `date` and the entries that
/// started that day, each given with its duration in hours as the caller
/// printed it (one decimal); `total_hours` is the same for the total of
/// the entries the user sees.
pub fn week_day_lines(
    date: &str,
    entries: Vec<(Entry, String)>,
    total_hours: &str,
    user_id: i64,
    is_admin: bool,
) -> (lines: Vec<String>)
    requires
        forall|k: int| 0 <= k <= visible_pairs(entries@, user_id, is_admin).len() ==> i64::MIN <= #[trigger] total_seconds(
            entries_of(visible_pairs(entries@, user_id, is_admin)).subrange(0, k),
        ) <= i64::MAX,
    ensures
        views(lines@) == week_day_text(date@, entries@, total_hours@, user_id, is_admin),
{
    let ghost all = entries@;
    let n = entries.len();
    let mut rest = entries;
    let mut v: Vec<(Entry, String)> = Vec::new();
    let mut i: usize = 0;
    assert(rest@ =~= all.subrange(0, n as int));
    while i < n
        invariant
            n == all.len(),
            i <= n,
            rest@ == all.subrange(i as int, n as int),
            v@ == all.subrange(0, i as int).filter(|p: (Entry, String)| visible(p.0.user_id, user_id, is_admin)),
        decreases n - i,
    {
        let p = rest.remove(0);
        proof {
            assert(all.subrange(0, i + 1).drop_last() =~= all.subrange(0, i as int));
            assert(p == all[i as int]);
            reveal_with_fuel(Seq::filter, 1);
        }
        let keep = is_admin || match p.0.user_id {
            Some(u) => u == user_id,
            None => false,
        };
        if keep {
            v.push(p);
        }
        i = i + 1;
        assert(rest@ =~= all.subrange(i as int, n as int));
    }
    assert(all.subrange(0, n as int) =~= all);
    assert(v@ == visible_pairs(all, user_id, is_admin));
    let mut lines: Vec<String> = Vec::new();
    if v.len() == 0 && !is_admin {
        assert(views(lines@) =~= week_day_text(date@, all, total_hours@, user_id, is_admin));
        return lines;
    }
    let mut total: i64 = 0;
    let mut j: usize = 0;
    assert(entries_of(v@).subrange(0, 0) =~= Seq::<Entry>::empty());
    while j < v.len()
        invariant
            j <= v@.len(),
            v@ == visible_pairs(all, user_id, is_admin),
            total == total_seconds(entries_of(v@).subrange(0, j as int)),
            forall|k: int| 0 <= k <= v@.len() ==> i64::MIN <= #[trigger] total_seconds(entries_of(v@).subrange(0, k))
                <= i64::MAX,
        decreases v.len() - j,
    {
        assert(entries_of(v@).subrange(0, j + 1).drop_last() =~= entries_of(v@).subrange(0, j as int));
        assert(entries_of(v@).subrange(0, j + 1).last() == v@[j as int].0);
        let ghost next = total_seconds(entries_of(v@).subrange(0, j + 1));
        assert(i64::MIN <= next <= i64::MAX);
        let d = match v[j].0.duration_seconds {
            Some(d) => d,
            None => 0,
        };
        total = total + d;
        j = j + 1;
    }
    assert(entries_of(v@).subrange(0, v@.len() as int) =~= entries_of(v@));
    let mut head = String::from_str(date);
    head.append(" \u{2014} total ");
    let t = format_duration_short(total, total_hours);
    head.append(t.as_str());
    lines.push(head);
    let ghost first = seq![date@ + " \u{2014} total "@ + duration_short_text(total_seconds(entries_of(v@)), total_hours@)];
    let mut k: usize = 0;
    while k < v.len()
        invariant
            k <= v@.len(),
            views(lines@) == first + v@.subrange(0, k as int).map_values(|p: (Entry, String)| week_entry_line(p.0, p.1@)),
        decreases v.len() - k,
    {
        let r = week_entry_string(&v[k].0, v[k].1.as_str());
        let ghost before = views(lines@);
        lines.push(r);
        assert(views(lines@) =~= before.push(week_entry_line(v@[k as int].0, v@[k as int].1@)));
        assert(v@.subrange(0, k + 1).map_values(|p: (Entry, String)| week_entry_line(p.0, p.1@)) =~= v@.subrange(
            0,
            k as int,
        ).map_values(|p: (Entry, String)| week_entry_line(p.0, p.1@)).push(week_entry_line(v@[k as int].0, v@[k as int].1@)));
        k = k + 1;
    }
    assert(v@.subrange(0, v@.len() as int) =~= v@);
    lines
}

/// A row of the report: the name in thirty columns, the duration in seconds
/// in ten followed by `s`, then the tags (or `-`).
pub open spec fn report_row(e: Entry) -> Seq<char> {
    pad_right(e.name@, 30, ' ') + " "@ + pad_right(int_text(duration_or_zero(e.duration_seconds)), 10, ' ')
        + "s "@ + or_dash(e.tags)
}

/// What the report prints for the entries of the last `days` days (of a
/// project tag, when one is given): a notice when there are none, else a
/// title, the total in seconds and in hours (one decimal, as the caller
/// printed it), an empty line, the header and one row per entry.
pub open spec fn report_text(tag: Option<Seq<char>>, days: i64, entries: Seq<Entry>, total_hours: Seq<char>) -> Seq<Seq<char>> {
    if entries.len() == 0 {
        seq!["No entries found."@]
    } else {
        let title = match tag {
            Some(t) => "Report for project '"@ + t + "' (last "@ + int_text(days as int) + " days)"@,
            None => "Report (last "@ + int_text(days as int) + " days)"@,
        };
        let total = total_seconds(entries);
        seq![
            title,
            "Total tracked time: "@ + int_text(total) + "s (~"@ + total_hours + "h)"@,
            Seq::empty(),
            table_header(),
        ] + entries.map_values(|e: Entry| report_row(e))
    }
}

fn report_row_string(e: &Entry) -> (s: String)
    ensures
        s@ == report_row(*e),
{
    let mut dur = String::new();
    push_i128(&mut dur, match e.duration_seconds {
        Some(d) => d as i128,
        None => 0,
    });
    let mut s = String::new();
    push_padded_right(&mut s, e.name.as_str(), 30);
    s.append(" ");
    push_padded_right(&mut s, dur.as_str(), 10);
    s.append("s ");
    push_or_dash(&mut s, &e.tags);
    assert(s@ =~= report_row(*e));
    s
}

/// The lines of the report on `entries` over the last `days` days;
/// `total_hours` is their total in hours with one decimal, printed by the
/// caller from the floating-point value.
pub fn report_lines(tag: Option<&str>, days: i64, entries: &Vec<Entry>, total_hours: &str) -> (lines: Vec<String>)
    requires
        forall|k: int| 0 <= k <= entries@.len() ==> i64::MIN <= #[trigger] total_seconds(entries@.subrange(0, k)) <= i64::MAX,
    ensures
        views(lines@) == report_text(match tag { Some(t) => Some(t@), None => None }, days, entries@, total_hours@),
{
    let ghost tv = match tag { Some(t) => Some(t@), None => None };
    let mut lines: Vec<String> = Vec::new();
    if entries.len() == 0 {
        lines.push(String::from_str("No entries found."));
        assert(views(lines@) =~= report_text(tv, days, entries@, total_hours@));
        return lines;
    }
    let total = total_duration(entries);
    let mut title = String::new();
    match tag {
        Some(t) => {
            title.append("Report for project '");
            title.append(t);
            title.append("' (last ");
        },
        None => title.append("Report (last "),
    }
    push_i128(&mut title, days as i128);
    title.append(" days)");
    let mut sum = String::from_str("Total tracked time: ");
    push_i128(&mut sum, total as i128);
    sum.append("s (~");
    sum.append(total_hours);
    sum.append("h)");
    let mut head = String::new();
    push_table_header(&mut head);
    lines.push(title);
    lines.push(sum);
    lines.push(String::new());
    lines.push(head);
    let ghost first = views(lines@);
    let mut i: usize = 0;
    while i < entries.len()
        invariant
            i <= entries@.len(),
            views(lines@) == first + entries@.subrange(0, i as int).map_values(|e: Entry| report_row(e)),
        decreases entries.len() - i,
    {
        let r = report_row_string(&entries[i]);
        let ghost before = views(lines@);
        lines.push(r);
        assert(views(lines@) =~= before.push(report_row(entries@[i as int])));
        assert(entries@.subrange(0, i + 1).map_values(|e: Entry| report_row(e)) =~= entries@.subrange(
            0,
            i as int,
        ).map_values(|e: Entry| report_row(e)).push(report_row(entries@[i as int])));
        i = i + 1;
    }
    assert(entries@.subrange(0, entries@.len() as int) =~= entries@);
    assert(views(lines@) =~= report_text(tv, days, entries@, total_hours@));
    lines
}

/// A row of the user table: id in five columns, name in twenty, role in
/// ten.
pub open spec fn user_row(u: (i64, String, String)) -> Seq<char> {
    pad_right(int_text(u.0 as int), 5, ' ') + " "@ + pad_right(u.1@, 20, ' ') + " "@ + pad_right(u.2@, 10, ' ')
}

/// The header of the user table.
pub open spec fn user_header() -> Seq<char> {
    pad_right("ID"@, 5, ' ') + " "@ + pad_right("NAME"@, 20, ' ') + " "@ + pad_right("ROLE"@, 10, ' ')
}

/// What `team list` prints.
pub open spec fn user_table_text(users: Seq<(i64, String, String)>) -> Seq<Seq<char>> {
    if users.len() == 0 {
        seq!["No users found."@]
    } else {
        seq![user_header()] + users.map_values(|u: (i64, String, String)| user_row(u))
    }
}

/// The lines of the `team list` command for the users as `(id, name,
/// role)`.
pub fn user_table_lines(users: &Vec<(i64, String, String)>) -> (lines: Vec<String>)
    ensures
        views(lines@) == user_table_text(users@),
{
    let mut lines: Vec<String> = Vec::new();
    if users.len() == 0 {
        lines.push(String::from_str("No users found."));
        assert(views(lines@) =~= user_table_text(users@));
        return lines;
    }
    let mut h = String::new();
    push_padded_right(&mut h, "ID", 5);
    h.append(" ");
    push_padded_right(&mut h, "NAME", 20);
    h.append(" ");
    push_padded_right(&mut h, "ROLE", 10);
    assert(h@ =~= user_header());
    lines.push(h);
    let mut i: usize = 0;
    while i < users.len()
        invariant
            i <= users@.len(),
            views(lines@) == seq![user_header()] + users@.subrange(0, i as int).map_values(
                |u: (i64, String, String)| user_row(u),
            ),
        decreases users.len() - i,
    {
        let u = &users[i];
        let mut id = String::new();
        push_i128(&mut id, u.0 as i128);
        let mut r = String::new();
        push_padded_right(&mut r, id.as_str(), 5);
        r.append(" ");
        push_padded_right(&mut r, u.1.as_str(), 20);
        r.append(" ");
        push_padded_right(&mut r, u.2.as_str(), 10);
        assert(r@ =~= user_row(users@[i as int]));
        let ghost before = views(lines@);
        lines.push(r);
        assert(views(lines@) =~= before.push(user_row(users@[i as int])));
        assert(users@.subrange(0, i + 1).map_values(|u: (i64, String, String)| user_row(u)) =~= users@.subrange(
            0,
            i as int,
        ).map_values(|u: (i64, String, String)| user_row(u)).push(user_row(users@[i as int])));
        i = i + 1;
    }
    assert(users@.subrange(0, users@.len() as int) =~= users@);
    lines
}

/// What the user report prints: the user's name and role, the number of
/// entries of the last `days` days and their total in hours (two decimals,
/// as the caller printed them).
pub open spec fn user_report_text(name: Seq<char>, role: Seq<char>, days: i64, count: int, hours: Seq<char>) -> Seq<
    Seq<char>,
> {
    seq![
        "Report for "@ + name + " (role: "@ + role + ")"@,
        "Entries in last "@ + int_text(days as int) + " days: "@ + int_text(count),
        "Total time: "@ + hours + " hours"@,
    ]
}

/// The lines of the report on one user, given the entries counted and
/// their total in hours with two decimals, printed by the caller from the
/// floating-point value.
pub fn user_report_lines(name: &str, role: &str, days: i64, count: usize, hours: &str) -> (lines: Vec<String>)
    ensures
        views(lines@) == user_report_text(name@, role@, days, count as int, hours@),
{
    let mut l0 = String::from_str("Report for ");
    l0.append(name);
    l0.append(" (role: ");
    l0.append(role);
    l0.append(")");
    let mut l1 = String::from_str("Entries in last ");
    push_i128(&mut l1, days as i128);
    l1.append(" days: ");
    push_i128(&mut l1, count as i128);
    let mut l2 = String::from_str("Total time: ");
    l2.append(hours);
    l2.append(" hours");
    let mut lines: Vec<String> = Vec::new();
    lines.push(l0);
    lines.push(l1);
    lines.push(l2);
    assert(views(lines@) =~= user_report_text(name@, role@, days, count as int, hours@));
    lines
}

} // verus!
