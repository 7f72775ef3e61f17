//! Import from and export to Toggl Track and Clockify: how their entries
//! map to the tracker's, and which imported entries are duplicates.

use vstd::prelude::*;
use vstd::utf8::encode_utf8;
use crate::clock::{parsed_instant, read_rfc3339, rfc3339_error_text, seconds_between, shifted_instant, utc_plus_seconds,
    utc_rfc3339_text, whole_seconds_between, Timestamp};
use crate::entries::Entry;
use crate::text::{int_text, join, join_strings, push_i128, split_char, split_on, str_eq, trim, trim_str, views};

verus! {

/// A Toggl time entry as its API shapes it.
pub struct TogglEntry {
    pub description: String,
    /// RFC 3339 start time.
    pub start: String,
    /// Seconds.
    pub duration: i64,
    pub tags: Vec<String>,
}

/// A Clockify time entry as its API shapes it.
pub struct ClockifyEntry {
    pub description: String,
    pub start: String,
    pub end: String,
    pub project_id: Option<String>,
    pub tag_ids: Vec<String>,
}

/// Tags joined with commas, or none when there are none.
pub open spec fn tags_field(tags: Seq<Seq<char>>) -> Option<Seq<char>> {
    if tags.len() == 0 { None } else { Some(join(tags, ","@)) }
}

/// Joins tags with commas; `None` for no tags.
pub fn join_tags(tags: &Vec<String>) -> (r: Option<String>)
    ensures
        r is Some <==> tags_field(views(tags@)) is Some,
        r matches Some(t) ==> tags_field(views(tags@)) == Some(t@),
{
    if tags.len() == 0 {
        None
    } else {
        Some(join_strings(tags, ","))
    }
}

/// The non-empty trimmed pieces of a comma-separated tag list, in order.
pub open spec fn tag_list(tags: Seq<char>) -> Seq<Seq<char>> {
    split_on(tags, ',').map_values(|p: Seq<char>| trim(p)).filter(|t: Seq<char>| t.len() > 0)
}

/// Splits a stored comma-separated tag list into trimmed, non-empty tags.
pub fn split_tags(tags: Option<&str>) -> (r: Vec<String>)
    ensures
        views(r@) == tag_list(match tags { Some(t) => t@, None => Seq::empty() }),
{
    let text: &str = match tags {
        Some(t) => t,
        None => "",
    };
    proof {
        reveal_strlit("");
    }
    let pieces = split_char(text, ',');
    let ghost trimmed = split_on(text@, ',').map_values(|p: Seq<char>| trim(p));
    let mut out: Vec<String> = Vec::new();
    let mut i: usize = 0;
    while i < pieces.len()
        invariant
            i <= pieces@.len(),
            views(pieces@) == split_on(text@, ','),
            trimmed == split_on(text@, ',').map_values(|p: Seq<char>| trim(p)),
            views(out@) == trimmed.subrange(0, i as int).filter(|t: Seq<char>| t.len() > 0),
        decreases pieces.len() - i,
    {
        let t = trim_str(pieces[i].as_str());
        proof {
            assert(trimmed.subrange(0, i + 1).drop_last() =~= trimmed.subrange(0, i as int));
            assert(trimmed[i as int] == t@) by {
                assert(views(pieces@)[i as int] == pieces@[i as int]@);
            }
            reveal_with_fuel(Seq::filter, 1);
        }
        let ghost before = views(out@);
        if t.as_str().unicode_len() > 0 {
            out.push(t);
            assert(views(out@) =~= before.push(trimmed[i as int]));
        }
        i = i + 1;
    }
    assert(trimmed.subrange(0, pieces@.len() as int) =~= trimmed);
    out
}

/// The Toggl entry an exported entry becomes: same description and start,
/// the recorded duration (zero while running) and the stored tags split.
pub fn toggl_export_entry(e: &Entry) -> (t: TogglEntry)
    ensures
        t.description == e.name,
        t.start == e.started_at,
        t.duration == match e.duration_seconds { Some(d) => d, None => 0 },
        views(t.tags@) == tag_list(match e.tags { Some(x) => x@, None => Seq::empty() }),
{
    let tags = match &e.tags {
        Some(t) => split_tags(Some(t.as_str())),
        None => split_tags(None),
    };
    TogglEntry {
        description: e.name.clone(),
        start: e.started_at.clone(),
        duration: match e.duration_seconds {
            Some(d) => d,
            None => 0,
        },
        tags,
    }
}

/// Whether an entry with this name and stored start time already exists.
pub fn already_imported(existing: &Vec<(String, String)>, name: &str, started_at: &str) -> (b: bool)
    ensures
        b == is_imported(existing@, name@, started_at@),
{
    let mut i: usize = 0;
    while i < existing.len()
        invariant
            i <= existing@.len(),
            forall|j: int| 0 <= j < i ==> !(#[trigger] existing@[j].0@ == name@ && existing@[j].1@ == started_at@),
        decreases existing.len() - i,
    {
        if str_eq(existing[i].0.as_str(), name) && str_eq(existing[i].1.as_str(), started_at) {
            return true;
        }
        i = i + 1;
    }
    false
}

/// An entry to insert for an import.
pub struct ImportRow {
    pub name: String,
    pub tags: Option<String>,
    pub started: Timestamp,
    pub ended: Timestamp,
    pub duration: i64,
}

/// The decision for one imported entry.
pub enum ImportStep {
    /// An entry with the same name and start exists already.
    Skip,
    /// Insert this entry.
    Insert(ImportRow),
}

/// Why an import stopped.
#[derive(Debug)]
pub enum ImportError {
    /// A time is not an RFC 3339 date-time; chrono's message says why.
    InvalidTime(String),
    /// The end of an entry falls outside the range of calendar dates.
    TimeOutOfRange,
}

/// Decides what to do with one Toggl entry: its start is read, its end is
/// the start plus its duration, and it is skipped when an entry with the
/// same description and start (in UTC) exists.
pub fn plan_toggl_import(e: &TogglEntry, existing: &Vec<(String, String)>) -> (r: Result<ImportStep, ImportError>)
    ensures
        parsed_instant(e.start@) is None ==> (r matches Err(ImportError::InvalidTime(t)) && t@ == rfc3339_error_text(e.start@)),
        parsed_instant(e.start@) matches Some(s) ==> {
            let key = utc_rfc3339_text(s.secs, s.nanos).unwrap();
            if is_imported(existing@, e.description@, key) {
                r matches Ok(ImportStep::Skip)
            } else if utc_plus_seconds(s.secs, s.nanos, e.duration) is None {
                r matches Err(ImportError::TimeOutOfRange)
            } else {
                r matches Ok(ImportStep::Insert(row)) && {
                    &&& row.name == e.description
                    &&& opt_view(row.tags) == tags_field(views(e.tags@))
                    &&& row.started == s
                    &&& utc_plus_seconds(s.secs, s.nanos, e.duration) == Some((row.ended.secs, row.ended.nanos))
                    &&& (row.ended.secs as int, row.ended.nanos as int)
                        == shifted_instant(s.secs as int, s.nanos as int, e.duration as int)
                    &&& row.duration == e.duration
                }
            }
        },
        forall|i: int|
            0 <= i < existing@.len() && parsed_instant(e.start@) is Some
                && (#[trigger] existing@[i]).0@ == e.description@
                && existing@[i].1@ == utc_rfc3339_text(
                    parsed_instant(e.start@)->0.secs,
                    parsed_instant(e.start@)->0.nanos,
                ).unwrap() ==> r matches Ok(ImportStep::Skip),
{
    let started = match read_rfc3339(e.start.as_str()) {
        Ok(t) => t,
        Err(m) => return Err(ImportError::InvalidTime(m)),
    };
    let key = started.to_rfc3339();
    if already_imported(existing, e.description.as_str(), key.as_str()) {
        return Ok(ImportStep::Skip);
    }
    let ended = match started.plus_seconds(e.duration) {
        Some(t) => t,
        None => return Err(ImportError::TimeOutOfRange),
    };
    Ok(ImportStep::Insert(ImportRow {
        name: e.description.clone(),
        tags: join_tags(&e.tags),
        started,
        ended,
        duration: e.duration,
    }))
}

/// Whether an entry with this description and stored start exists among
/// `existing`.
pub open spec fn is_imported(existing: Seq<(String, String)>, name: Seq<char>, started: Seq<char>) -> bool {
    exists|i: int| 0 <= i < existing.len() && #[trigger] existing[i].0@ == name && existing[i].1@ == started
}

/// Importing is idempotent: once a Toggl entry's row is stored (under its
/// description and its start written in UTC), importing the entry again
/// finds it and skips it.
pub proof fn law_reimport_is_skipped(e: TogglEntry, existing: Seq<(String, String)>, stored: (String, String))
    requires
        parsed_instant(e.start@) is Some,
        stored.0@ == e.description@,
        stored.1@ == utc_rfc3339_text(parsed_instant(e.start@)->0.secs, parsed_instant(e.start@)->0.nanos).unwrap(),
    ensures
        is_imported(existing.push(stored), e.description@, stored.1@),
{
    let all = existing.push(stored);
    assert(all[existing.len() as int] == stored);
}

/// A duplicate is found wherever it is stored: if any stored (name, start)
/// pair equals the entry's description and UTC start, the entry counts as
/// imported, also after more pairs are stored behind it; and if no stored
/// pair equals it, it does not.
pub proof fn law_duplicate_found_anywhere(
    existing: Seq<(String, String)>,
    more: Seq<(String, String)>,
    name: Seq<char>,
    started: Seq<char>,
)
    ensures
        forall|i: int|
            0 <= i < existing.len() && (#[trigger] existing[i]).0@ == name && existing[i].1@ == started
                ==> is_imported(existing, name, started) && is_imported(existing + more, name, started)
                    && is_imported(more + existing, name, started),
        (forall|i: int| 0 <= i < existing.len() ==> !((#[trigger] existing[i]).0@ == name && existing[i].1@ == started))
            ==> !is_imported(existing, name, started),
{
    assert forall|i: int|
        0 <= i < existing.len() && (#[trigger] existing[i]).0@ == name && existing[i].1@ == started implies
            is_imported(existing, name, started) && is_imported(existing + more, name, started)
                && is_imported(more + existing, name, started) by {
        assert((existing + more)[i] == existing[i]);
        assert((more + existing)[more.len() + i] == existing[i]);
    }
}

/// The characters of an optional string.
pub open spec fn opt_view(o: Option<String>) -> Option<Seq<char>> {
    match o {
        Some(s) => Some(s@),
        None => None,
    }
}

/// The tags of a Clockify entry: the name of its project (when known),
/// then its tag ids.
pub fn clockify_tags(project_name: Option<String>, tag_ids: &Vec<String>) -> (r: Vec<String>)
    ensures
        views(r@) == (match project_name { Some(p) => seq![p@], None => Seq::empty() }) + views(tag_ids@),
{
    let mut out: Vec<String> = Vec::new();
    match project_name {
        Some(p) => out.push(p),
        None => {},
    }
    let ghost first = views(out@);
    let mut i: usize = 0;
    while i < tag_ids.len()
        invariant
            i <= tag_ids@.len(),
            views(out@) == first + views(tag_ids@).subrange(0, i as int),
        decreases tag_ids.len() - i,
    {
        let ghost before = views(out@);
        out.push(tag_ids[i].clone());
        assert(views(out@) =~= before.push(tag_ids@[i as int]@));
        assert(views(tag_ids@).subrange(0, i + 1) =~= views(tag_ids@).subrange(0, i as int).push(tag_ids@[i as int]@));
        i = i + 1;
    }
    assert(views(tag_ids@).subrange(0, tag_ids@.len() as int) =~= views(tag_ids@));
    out
}

/// Decides what to do with one Clockify entry, given the name of its
/// project: start and end are read, the duration runs between them, and it
/// is skipped when an entry with the same description and start exists.
pub fn plan_clockify_import(e: &ClockifyEntry, project_name: Option<String>, existing: &Vec<(String, String)>) -> (r: Result<ImportStep, ImportError>)
    ensures
        parsed_instant(e.start@) is None ==> (r matches Err(ImportError::InvalidTime(t)) && t@ == rfc3339_error_text(e.start@)),
        parsed_instant(e.start@) is Some && parsed_instant(e.end@) is None ==> (r matches Err(ImportError::InvalidTime(t)) && t@ == rfc3339_error_text(e.end@)),
        parsed_instant(e.start@) matches Some(s) ==> (parsed_instant(e.end@) matches Some(f) ==> {
            let key = utc_rfc3339_text(s.secs, s.nanos).unwrap();
            if is_imported(existing@, e.description@, key) {
                r matches Ok(ImportStep::Skip)
            } else {
                r matches Ok(ImportStep::Insert(row)) && {
                    &&& row.name == e.description
                    &&& opt_view(row.tags) == tags_field((match project_name { Some(p) => seq![p@], None => Seq::empty() }) + views(e.tag_ids@))
                    &&& row.started == s
                    &&& row.ended == f
                    &&& row.duration == seconds_between(f, s)
                }
            }
        }),
        forall|i: int|
            0 <= i < existing@.len() && parsed_instant(e.start@) is Some && parsed_instant(e.end@) is Some
                && (#[trigger] existing@[i]).0@ == e.description@
                && existing@[i].1@ == utc_rfc3339_text(
                    parsed_instant(e.start@)->0.secs,
                    parsed_instant(e.start@)->0.nanos,
                ).unwrap() ==> r matches Ok(ImportStep::Skip),
{
    let started = match read_rfc3339(e.start.as_str()) {
        Ok(t) => t,
        Err(m) => return Err(ImportError::InvalidTime(m)),
    };
    let ended = match read_rfc3339(e.end.as_str()) {
        Ok(t) => t,
        Err(m) => return Err(ImportError::InvalidTime(m)),
    };
    let duration = whole_seconds_between(&ended, &started);
    let tags = clockify_tags(project_name, &e.tag_ids);
    let key = started.to_rfc3339();
    if already_imported(existing, e.description.as_str(), key.as_str()) {
        return Ok(ImportStep::Skip);
    }
    Ok(ImportStep::Insert(ImportRow {
        name: e.description.clone(),
        tags: join_tags(&tags),
        started,
        ended,
        duration,
    }))
}

/// The character of a base64 digit (0 to 63) in the standard alphabet:
/// `A`-`Z`, `a`-`z`, `0`-`9`, `+`, `/`.
pub open spec fn b64_digit(v: int) -> char {
    if v < 26 {
        ((65 + v) as u32) as char
    } else if v < 52 {
        ((97 + v - 26) as u32) as char
    } else if v < 62 {
        ((48 + v - 52) as u32) as char
    } else if v == 62 {
        '+'
    } else {
        '/'
    }
}

/// Standard base64 with padding: each group of three bytes becomes four
/// digits of six bits, most significant first; a final group of one or two
/// bytes is padded with `=`.
pub open spec fn base64_of(b: Seq<u8>) -> Seq<char>
    decreases b.len(),
{
    if b.len() == 0 {
        Seq::empty()
    } else {
        let x: int = b[0] as int;
        let y: int = if b.len() > 1 { b[1] as int } else { 0 };
        let z: int = if b.len() > 2 { b[2] as int } else { 0 };
        let d0 = b64_digit(x / 4);
        let d1 = b64_digit((x % 4) * 16 + y / 16);
        let d2 = b64_digit((y % 16) * 4 + z / 64);
        let d3 = b64_digit(z % 64);
        if b.len() == 1 {
            seq![d0, d1, '=', '=']
        } else if b.len() == 2 {
            seq![d0, d1, d2, '=']
        } else {
            seq![d0, d1, d2, d3] + base64_of(b.skip(3))
        }
    }
}

/// The standard base64 encoding of the UTF-8 bytes of a text.
pub open spec fn base64_text(text: Seq<char>) -> Seq<char> {
    base64_of(encode_utf8(text))
}

/// Encodes the UTF-8 bytes of `text` with `base64::engine::general_purpose::STANDARD`.
///
/// Trusted: the contract claims that the result is the standard, padded
/// base64 encoding of the text's bytes (`base64_text`), as the crate
/// documents for this engine. Texts too long for the encoding to fit in
/// memory are left out by the precondition.
#[verifier::external_body]
fn encode_base64(text: &str) -> (r: String)
    requires
        text@.len() <= isize::MAX / 6,
    ensures
        r@ == base64_text(text@),
{
    base64::Engine::encode(&base64::engine::general_purpose::STANDARD, text)
}

/// The `Authorization` header value for Toggl's API: basic authentication
/// with the API token as user name and `api_token` as password.
pub fn toggl_auth_header(api_token: &str) -> (h: String)
    requires
        api_token@.len() + 10 <= isize::MAX / 6,
    ensures
        h@ == "Basic "@ + base64_text(api_token@ + ":api_token"@),
{
    let mut creds = String::from_str(api_token);
    creds.append(":api_token");
    proof {
        reveal_strlit(":api_token");
    }
    let enc = encode_base64(creds.as_str());
    let mut h = String::from_str("Basic ");
    h.append(enc.as_str());
    h
}

/// The address of the Toggl time entries between two dates.
pub fn toggl_entries_url(start_date: &str, end_date: &str) -> (u: String)
    ensures
        u@ == "https://api.track.toggl.com/api/v9/me/time_entries?start_date="@ + start_date@ + "&end_date="@
            + end_date@,
{
    let mut u = String::from_str("https://api.track.toggl.com/api/v9/me/time_entries?start_date=");
    u.append(start_date);
    u.append("&end_date=");
    u.append(end_date);
    u
}

/// The address for creating a time entry in a Toggl workspace.
pub fn toggl_create_url(workspace_id: i64) -> (u: String)
    ensures
        u@ == "https://api.track.toggl.com/api/v9/workspaces/"@ + int_text(workspace_id as int) + "/time_entries"@,
{
    let mut u = String::from_str("https://api.track.toggl.com/api/v9/workspaces/");
    push_i128(&mut u, workspace_id as i128);
    u.append("/time_entries");
    u
}

/// The address of the user's Clockify time entries between two instants.
pub fn clockify_entries_url(workspace_id: &str, start: &str, end: &str) -> (u: String)
    ensures
        u@ == "https://api.clockify.me/api/v1/workspaces/"@ + workspace_id@ + "/user/me/time-entries?start="@
            + start@ + "&end="@ + end@ + "&page-size=5000"@,
{
    let mut u = String::from_str("https://api.clockify.me/api/v1/workspaces/");
    u.append(workspace_id);
    u.append("/user/me/time-entries?start=");
    u.append(start);
    u.append("&end=");
    u.append(end);
    u.append("&page-size=5000");
    u
}

/// The address of the projects of a Clockify workspace.
pub fn clockify_projects_url(workspace_id: &str) -> (u: String)
    ensures
        u@ == "https://api.clockify.me/api/v1/workspaces/"@ + workspace_id@ + "/projects"@,
{
    let mut u = String::from_str("https://api.clockify.me/api/v1/workspaces/");
    u.append(workspace_id);
    u.append("/projects");
    u
}

/// The name given to project `id` by the last `(id, name)` pair that
/// mentions it (later pairs replace earlier ones), if any.
pub open spec fn project_name_in(projects: Seq<(String, String)>, id: Seq<char>) -> Option<Seq<char>>
    decreases projects.len(),
{
    if projects.len() == 0 {
        None
    } else if projects.last().0@ == id {
        Some(projects.last().1@)
    } else {
        project_name_in(projects.drop_last(), id)
    }
}

/// For each element of the JSON array in `bytes`, its string fields named
/// `first` and `second` (each `None` when missing or not a string); `None`
/// when the bytes are not a JSON array (`serde_json::from_slice` to a
/// `Vec<Value>`, then `get` and `as_str` on each element).
pub uninterp spec fn json_array_fields(bytes: Seq<u8>, first: Seq<char>, second: Seq<char>) -> Option<
    Seq<(Option<Seq<char>>, Option<Seq<char>>)>,
>;

/// The texts of a list of optional field pairs.
pub open spec fn field_pairs_view(v: Seq<(Option<String>, Option<String>)>) -> Seq<(Option<Seq<char>>, Option<Seq<char>>)> {
    v.map_values(|p: (Option<String>, Option<String>)| (opt_view(p.0), opt_view(p.1)))
}

/// The texts of a list of string pairs.
pub open spec fn string_pairs_view(v: Seq<(String, String)>) -> Seq<(Seq<char>, Seq<char>)> {
    v.map_values(|p: (String, String)| (p.0@, p.1@))
}

/// Reads two string fields of every element of a JSON array with
/// `serde_json`.
///
/// Trusted: the contract claims only that the result is
/// `json_array_fields` of the bytes and the two field names.
#[verifier::external_body]
fn array_string_fields(bytes: &Vec<u8>, first: &str, second: &str) -> (r: Option<Vec<(Option<String>, Option<String>)>>)
    ensures
        r is Some <==> json_array_fields(bytes@, first@, second@) is Some,
        r matches Some(v) ==> json_array_fields(bytes@, first@, second@) == Some(field_pairs_view(v@)),
{
    let items: Vec<serde_json::Value> = serde_json::from_slice(bytes.as_slice()).ok()?;
    Some(items.iter().map(|p| (
        p.get(first).and_then(|x| x.as_str()).map(|t| t.to_string()),
        p.get(second).and_then(|x| x.as_str()).map(|t| t.to_string()),
    )).collect())
}

/// The pairs whose two fields are both present, in order.
pub open spec fn complete_pairs(s: Seq<(Option<Seq<char>>, Option<Seq<char>>)>) -> Seq<(Seq<char>, Seq<char>)>
    decreases s.len(),
{
    if s.len() == 0 {
        Seq::empty()
    } else {
        let rest = complete_pairs(s.drop_last());
        match s.last() {
            (Some(a), Some(b)) => rest.push((a, b)),
            _ => rest,
        }
    }
}

/// The workspace's projects as `(id, name)` pairs, from the body of
/// Clockify's project list: the elements with a string `id` and a string
/// `name`, in order; `None` when the body is not a JSON array.
pub fn clockify_projects(body: &Vec<u8>) -> (r: Option<Vec<(String, String)>>)
    ensures
        r is Some <==> json_array_fields(body@, "id"@, "name"@) is Some,
        r matches Some(v) ==> string_pairs_view(v@) == complete_pairs(json_array_fields(body@, "id"@, "name"@).unwrap()),
{
    let items = match array_string_fields(body, "id", "name") {
        Some(v) => v,
        None => return None,
    };
    let ghost all = field_pairs_view(items@);
    let mut out: Vec<(String, String)> = Vec::new();
    let mut i: usize = 0;
    while i < items.len()
        invariant
            i <= items@.len(),
            all == field_pairs_view(items@),
            string_pairs_view(out@) == complete_pairs(all.subrange(0, i as int)),
        decreases items@.len() - i,
    {
        proof {
            assert(all.subrange(0, i + 1).drop_last() =~= all.subrange(0, i as int));
            assert(all.subrange(0, i + 1).last() == all[i as int]);
        }
        match &items[i] {
            (Some(a), Some(b)) => {
                let pair = (a.clone(), b.clone());
                out.push(pair);
                assert(string_pairs_view(out@) =~= complete_pairs(all.subrange(0, i as int)).push((a@, b@)));
            },
            _ => {},
        }
        i = i + 1;
    }
    assert(all.subrange(0, items@.len() as int) =~= all);
    Some(out)
}

/// The name of a Clockify entry's project among the workspace's projects,
/// as `(id, name)` pairs; none when the entry has no project or the project
/// is unknown.
pub fn project_name_for(projects: &Vec<(String, String)>, project_id: Option<&str>) -> (r: Option<String>)
    ensures
        project_id is None ==> r is None,
        project_id matches Some(id) ==> opt_view(r) == project_name_in(projects@, id@),
{
    let id = match project_id {
        Some(id) => id,
        None => return None,
    };
    let mut i: usize = projects.len();
    assert(projects@.subrange(0, i as int) =~= projects@);
    while i > 0
        invariant
            i <= projects@.len(),
            project_id == Some(id),
            project_name_in(projects@, id@) == project_name_in(projects@.subrange(0, i as int), id@),
        decreases i,
    {
        proof {
            assert(projects@.subrange(0, i as int).drop_last() =~= projects@.subrange(0, i - 1));
        }
        assert(projects@.subrange(0, i as int).last() == projects@[i - 1]);
        if str_eq(projects[i - 1].0.as_str(), id) {
            let name = projects[i - 1].1.clone();
            assert(opt_view(Some(name)) == project_name_in(projects@.subrange(0, i as int), id@));
            return Some(name);
        }
        i = i - 1;
    }
    assert(projects@.subrange(0, 0) =~= Seq::<(String, String)>::empty());
    None
}

} // verus!
