//! Exporting entries: choice of format, the rows of the CSV export, and the
//! iCalendar document.

use vstd::prelude::*;
use crate::clock::{ical_datetime, ical_datetime_text};
use crate::entries::Entry;
use crate::escape::{ical_escape, ical_escaped};
use crate::text::{int_text, push_i128, views};

verus! {

/// The export formats.
#[derive(Debug, PartialEq, Eq, Structural)]
pub enum ExportFormat {
    Json,
    Csv,
    Ical,
}

/// Reads the name of an export format: `json`, `csv` or `ical`; any other
/// name is refused with a message naming the three.
pub fn parse_export_format(format: &str) -> (r: Result<ExportFormat, String>)
    ensures
        format@ == "json"@ ==> r == Ok::<ExportFormat, String>(ExportFormat::Json),
        format@ == "csv"@ ==> r == Ok::<ExportFormat, String>(ExportFormat::Csv),
        format@ == "ical"@ ==> r == Ok::<ExportFormat, String>(ExportFormat::Ical),
        format@ != "json"@ && format@ != "csv"@ && format@ != "ical"@ ==> (r matches Err(m)
            && m@ == "Unknown format: "@ + format@ + ". Use json, csv, or ical."@),
{
    proof {
        reveal_strlit("json");
        reveal_strlit("csv");
        reveal_strlit("ical");
        assert("csv"@.len() != "json"@.len());
        assert("ical"@ != "json"@) by {
            assert("ical"@[0] != "json"@[0]);
        }
        assert("ical"@.len() != "csv"@.len());
    }
    if crate::text::str_eq(format, "json") {
        Ok(ExportFormat::Json)
    } else if crate::text::str_eq(format, "csv") {
        Ok(ExportFormat::Csv)
    } else if crate::text::str_eq(format, "ical") {
        Ok(ExportFormat::Ical)
    } else {
        let mut m = String::from_str("Unknown format: ");
        m.append(format);
        m.append(". Use json, csv, or ical.");
        Err(m)
    }
}

/// The characters of an optional string, empty when absent.
pub open spec fn or_empty(o: Option<String>) -> Seq<char> {
    match o {
        Some(s) => s@,
        None => Seq::empty(),
    }
}

/// The recorded duration of an entry, zero while it runs.
pub open spec fn duration_or_zero(d: Option<i64>) -> int {
    match d {
        Some(x) => x as int,
        None => 0,
    }
}

/// The header of the CSV export.
pub fn csv_header() -> (h: Vec<String>)
    ensures
        views(h@) == seq!["name"@, "started_at"@, "ended_at"@, "duration_seconds"@, "tags"@],
{
    let mut h: Vec<String> = Vec::new();
    h.push(String::from_str("name"));
    h.push(String::from_str("started_at"));
    h.push(String::from_str("ended_at"));
    h.push(String::from_str("duration_seconds"));
    h.push(String::from_str("tags"));
    assert(views(h@) =~= seq!["name"@, "started_at"@, "ended_at"@, "duration_seconds"@, "tags"@]);
    h
}

/// The CSV record of an entry: name, start, end (empty while running),
/// duration in seconds (0 while running) and tags (empty when none).
pub fn csv_record(e: &Entry) -> (r: Vec<String>)
    ensures
        views(r@) == seq![e.name@, e.started_at@, or_empty(e.ended_at), int_text(duration_or_zero(e.duration_seconds)), or_empty(e.tags)],
{
    let mut r: Vec<String> = Vec::new();
    r.push(e.name.clone());
    r.push(e.started_at.clone());
    r.push(match &e.ended_at {
        Some(t) => t.clone(),
        None => String::new(),
    });
    let mut d = String::new();
    push_i128(&mut d, match e.duration_seconds {
        Some(x) => x as i128,
        None => 0,
    });
    r.push(d);
    r.push(match &e.tags {
        Some(t) => t.clone(),
        None => String::new(),
    });
    assert(views(r@) =~= seq![e.name@, e.started_at@, or_empty(e.ended_at), int_text(duration_or_zero(e.duration_seconds)), or_empty(e.tags)]);
    r
}

/// The opening lines of an entry's event: its id and summary.
pub open spec fn event_head(e: Entry) -> Seq<char> {
    "BEGIN:VEVENT\r\n"@ + "UID:trackerclaw-"@ + int_text(e.id as int) + "@localhost\r\n"@ + "SUMMARY:"@
        + ical_escaped(e.name@) + "\r\n"@
}

/// The start and end lines of an entry's event; a running entry ends when
/// it starts.
pub open spec fn event_times(e: Entry) -> Seq<char> {
    let start = ical_datetime_text(e.started_at@);
    let end = match e.ended_at {
        Some(t) => ical_datetime_text(t@),
        None => start,
    };
    "DTSTART:"@ + start + "\r\n"@ + "DTEND:"@ + end + "\r\n"@
}

/// The description line: name and duration in seconds.
pub open spec fn event_description(e: Entry) -> Seq<char> {
    "DESCRIPTION:"@ + ical_escaped(e.name@ + " ("@ + int_text(duration_or_zero(e.duration_seconds)) + "s)"@)
        + "\r\n"@
}

/// The categories line (the tags), when the entry has tags.
pub open spec fn event_categories(e: Entry) -> Seq<char> {
    match e.tags {
        Some(t) => "CATEGORIES:"@ + ical_escaped(t@) + "\r\n"@,
        None => Seq::empty(),
    }
}

/// The VEVENT of an entry.
pub open spec fn event_text(e: Entry) -> Seq<char> {
    event_head(e) + event_times(e) + event_description(e) + event_categories(e) + "END:VEVENT\r\n"@
}

/// The events of a list of entries, one after the other.
pub open spec fn events_text(entries: Seq<Entry>) -> Seq<char>
    decreases entries.len(),
{
    if entries.len() == 0 {
        Seq::empty()
    } else {
        events_text(entries.drop_last()) + event_text(entries.last())
    }
}

/// The iCalendar document of a list of entries.
pub open spec fn calendar_text(entries: Seq<Entry>) -> Seq<char> {
    "BEGIN:VCALENDAR\r\n"@ + "VERSION:2.0\r\n"@ + "PRODID:-//TrackerClaw//EN\r\n"@ + events_text(entries)
        + "END:VCALENDAR\r\n"@
}

fn push_event_head(out: &mut String, e: &Entry)
    ensures
        final(out)@ == old(out)@ + event_head(*e),
{
    out.append("BEGIN:VEVENT\r\n");
    out.append("UID:trackerclaw-");
    push_i128(out, e.id as i128);
    out.append("@localhost\r\n");
    out.append("SUMMARY:");
    let summary = ical_escape(e.name.as_str());
    out.append(summary.as_str());
    out.append("\r\n");
    assert(final(out)@ =~= old(out)@ + event_head(*e));
}

fn push_event_times(out: &mut String, e: &Entry)
    ensures
        final(out)@ == old(out)@ + event_times(*e),
{
    let start = ical_datetime(e.started_at.as_str());
    let end = match &e.ended_at {
        Some(t) => ical_datetime(t.as_str()),
        None => start.clone(),
    };
    out.append("DTSTART:");
    out.append(start.as_str());
    out.append("\r\n");
    out.append("DTEND:");
    out.append(end.as_str());
    out.append("\r\n");
    assert(final(out)@ =~= old(out)@ + event_times(*e));
}

fn push_event_description(out: &mut String, e: &Entry)
    ensures
        final(out)@ == old(out)@ + event_description(*e),
{
    let mut raw = e.name.clone();
    raw.append(" (");
    push_i128(&mut raw, match e.duration_seconds {
        Some(x) => x as i128,
        None => 0,
    });
    raw.append("s)");
    let desc = ical_escape(raw.as_str());
    out.append("DESCRIPTION:");
    out.append(desc.as_str());
    out.append("\r\n");
    assert(final(out)@ =~= old(out)@ + event_description(*e));
}

fn push_event_categories(out: &mut String, e: &Entry)
    ensures
        final(out)@ == old(out)@ + event_categories(*e),
{
    match &e.tags {
        Some(t) => {
            out.append("CATEGORIES:");
            let c = ical_escape(t.as_str());
            out.append(c.as_str());
            out.append("\r\n");
            assert(final(out)@ =~= old(out)@ + event_categories(*e));
        },
        None => {
            assert(final(out)@ =~= old(out)@ + event_categories(*e));
        },
    }
}

/// Appends the VEVENT of an entry.
fn push_event(out: &mut String, e: &Entry)
    ensures
        final(out)@ == old(out)@ + event_text(*e),
{
    push_event_head(out, e);
    push_event_times(out, e);
    push_event_description(out, e);
    push_event_categories(out, e);
    out.append("END:VEVENT\r\n");
    assert(final(out)@ =~= old(out)@ + event_text(*e));
}

/// Renders the entries as an iCalendar document, one event per entry with
/// its times in UTC.
pub fn ical_calendar(entries: &Vec<Entry>) -> (doc: String)
    ensures
        doc@ == calendar_text(entries@),
{
    let mut out = String::from_str("BEGIN:VCALENDAR\r\n");
    out.append("VERSION:2.0\r\n");
    out.append("PRODID:-//TrackerClaw//EN\r\n");
    let ghost head = out@;
    let mut i: usize = 0;
    while i < entries.len()
        invariant
            i <= entries@.len(),
            out@ == head + events_text(entries@.subrange(0, i as int)),
        decreases entries.len() - i,
    {
        assert(entries@.subrange(0, i + 1).drop_last() =~= entries@.subrange(0, i as int));
        push_event(&mut out, &entries[i]);
        i = i + 1;
        assert(out@ =~= head + events_text(entries@.subrange(0, i as int)));
    }
    out.append("END:VCALENDAR\r\n");
    assert(entries@.subrange(0, entries@.len() as int) =~= entries@);
    assert(out@ =~= calendar_text(entries@));
    out
}

} // verus!
