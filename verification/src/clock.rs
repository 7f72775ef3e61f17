//! Instants in time as the tracker stores them (RFC 3339 text), the
//! differences between them, and the date formats of exports.
//!
//! Parsing and formatting are chrono's; the library holds an instant as
//! whole seconds since the Unix epoch and nanoseconds, as chrono reports
//! them.

use vstd::prelude::*;
use vstd::utf8::encode_utf8;

verus! {

/// An instant: seconds since 1970-01-01T00:00:00Z and nanoseconds within
/// that second (from one billion on inside a leap second, as chrono counts
/// them).
#[derive(Clone, Copy, PartialEq, Eq, Debug, Structural)]
pub struct Timestamp {
    pub secs: i64,
    pub nanos: u32,
}

/// Bound on the seconds of any date-time chrono can represent (its years
/// lie between -262,143 and 262,142).
pub open spec fn secs_bound() -> int {
    10_000_000_000_000
}

impl Timestamp {
    /// An instant within chrono's range.
    pub open spec fn wf(self) -> bool {
        self.nanos < 2_000_000_000 && -secs_bound() < self.secs < secs_bound()
    }

    /// Whether `self` comes strictly before `other` (chrono's ordering of
    /// date-times: by second, then by nanosecond).
    pub open spec fn before(self, other: Timestamp) -> bool {
        self.secs < other.secs || (self.secs == other.secs && self.nanos < other.nanos)
    }

    /// Whether `self` is strictly before `other`.
    pub fn is_before(&self, other: &Timestamp) -> (b: bool)
        ensures
            b == self.before(*other),
    {
        self.secs < other.secs || (self.secs == other.secs && self.nanos < other.nanos)
    }
}

/// Whole seconds from `earlier` to `later`, as chrono's `later - earlier`
/// followed by `num_seconds` gives them: the difference of the instants,
/// with chrono's correction when a leap second lies between them, truncated
/// toward zero.
pub open spec fn seconds_between(later: Timestamp, earlier: Timestamp) -> int {
    let sa = later.secs % 86400;
    let sb = earlier.secs % 86400;
    let adj: int = if sa > sb && earlier.nanos >= 1_000_000_000 {
        1
    } else if sa < sb && later.nanos >= 1_000_000_000 {
        -1
    } else {
        0
    };
    let frac = later.nanos - earlier.nanos;
    let secs = later.secs - earlier.secs + adj + frac / 1_000_000_000;
    let nanos = frac % 1_000_000_000;
    if secs < 0 && nanos > 0 {
        secs + 1
    } else {
        secs
    }
}

/// An instant not before another is not a negative number of seconds
/// after it.
pub proof fn lemma_not_before_nonnegative(later: Timestamp, earlier: Timestamp)
    requires
        later.wf(),
        earlier.wf(),
        !later.before(earlier),
    ensures
        seconds_between(later, earlier) >= 0,
{
    let frac = later.nanos - earlier.nanos;
    assert(frac / 1_000_000_000 >= -2);
    assert(frac / 1_000_000_000 <= 1);
    if later.secs == earlier.secs {
        assert(frac >= 0);
    }
}

/// Second of the day of `secs` (0 to 86399).
fn second_of_day(secs: i64) -> (s: u64)
    ensures
        s == secs % 86400,
{
    // Shift by a whole number of days so that the value is non-negative.
    let shifted: u128 = (secs as i128 + 9_223_372_036_854_806_400i128) as u128;
    assert(9_223_372_036_854_806_400int == 86400 * 106_751_991_167_301);
    proof {
        vstd::arithmetic::div_mod::lemma_mod_add_multiples_vanish(secs as int, 86400);
        lemma_mod_shift(secs as int, 106_751_991_167_301);
    }
    (shifted % 86400) as u64
}

proof fn lemma_mod_shift(x: int, k: int)
    requires
        k >= 0,
    ensures
        (x + 86400 * k) % 86400 == x % 86400,
    decreases k,
{
    if k > 0 {
        lemma_mod_shift(x, k - 1);
        vstd::arithmetic::div_mod::lemma_mod_add_multiples_vanish(x + 86400 * (k - 1), 86400);
        assert(x + 86400 * (k - 1) + 86400 == x + 86400 * k) by (nonlinear_arith);
    }
}

/// Computes `seconds_between`.
pub fn whole_seconds_between(later: &Timestamp, earlier: &Timestamp) -> (n: i64)
    requires
        later.wf(),
        earlier.wf(),
    ensures
        n == seconds_between(*later, *earlier),
{
    let sa = second_of_day(later.secs);
    let sb = second_of_day(earlier.secs);
    let adj: i64 = if sa > sb && earlier.nanos >= 1_000_000_000 {
        1
    } else if sa < sb && later.nanos >= 1_000_000_000 {
        -1
    } else {
        0
    };
    let frac: i64 = later.nanos as i64 - earlier.nanos as i64;
    let (q, r): (i64, i64) = if frac >= 0 {
        (frac / 1_000_000_000, frac % 1_000_000_000)
    } else {
        let m = -frac;
        let q0 = m / 1_000_000_000;
        let r0 = m % 1_000_000_000;
        if r0 == 0 {
            (-q0, 0)
        } else {
            (-q0 - 1, 1_000_000_000 - r0)
        }
    };
    assert(q == frac as int / 1_000_000_000 && r == frac as int % 1_000_000_000) by {
        if frac < 0 {
            let m = -frac;
            assert(m == (m / 1_000_000_000) * 1_000_000_000 + m % 1_000_000_000);
            vstd::arithmetic::div_mod::lemma_fundamental_div_mod_converse(
                frac as int,
                1_000_000_000,
                q as int,
                r as int,
            );
        }
    }
    let secs = later.secs - earlier.secs + adj + q;
    if secs < 0 && r > 0 {
        secs + 1
    } else {
        secs
    }
}

/// Seconds elapsed from `started` to `now`, never negative: a clock that
/// went backwards counts as no time at all.
pub open spec fn clamped_seconds(now: Timestamp, started: Timestamp) -> int {
    if seconds_between(now, started) < 0 {
        0
    } else {
        seconds_between(now, started)
    }
}

/// Computes `clamped_seconds`.
pub fn elapsed_clamped(now: &Timestamp, started: &Timestamp) -> (n: i64)
    requires
        now.wf(),
        started.wf(),
    ensures
        n == clamped_seconds(*now, *started),
        n >= 0,
{
    let d = whole_seconds_between(now, started);
    if d < 0 {
        0
    } else {
        d
    }
}

/// What chrono's `DateTime::parse_from_rfc3339` makes of a text: the
/// instant it denotes, as (seconds, nanoseconds), or the message its
/// `ParseError` displays.
pub uninterp spec fn rfc3339_parse(text: Seq<char>) -> Result<(i64, u32), Seq<char>>;

/// The instant an RFC 3339 date-time denotes, or `None` when the text is
/// not one.
pub open spec fn rfc3339_instant(text: Seq<char>) -> Option<(i64, u32)> {
    match rfc3339_parse(text) {
        Ok(p) => Some(p),
        Err(_) => None,
    }
}

/// Why a text is not an RFC 3339 date-time, in chrono's words.
pub open spec fn rfc3339_error_text(text: Seq<char>) -> Seq<char> {
    match rfc3339_parse(text) {
        Ok(_) => Seq::empty(),
        Err(m) => m,
    }
}

/// The messages chrono's `ParseError` displays, one per kind of error.
pub open spec fn parse_error_message(m: Seq<char>) -> bool {
    ||| m == "input is out of range"@
    ||| m == "no possible date and time matching input"@
    ||| m == "input is not enough for unique date and time"@
    ||| m == "input contains invalid characters"@
    ||| m == "premature end of input"@
    ||| m == "trailing input"@
    ||| m == "bad or unsupported format string"@
}

/// The RFC 3339 text chrono writes for an instant in UTC
/// (`DateTime::<Utc>::from_timestamp` then `to_rfc3339`), or `None` when
/// the instant is outside chrono's range.
pub uninterp spec fn utc_rfc3339_text(secs: i64, nanos: u32) -> Option<Seq<char>>;

/// The text chrono's `format` writes for an instant in UTC with a
/// strftime-style `pattern`, or `None` when the instant is outside chrono's
/// range.
pub uninterp spec fn utc_format_text(secs: i64, nanos: u32, pattern: Seq<char>) -> Option<
    Seq<char>,
>;

/// Seconds since the epoch of midnight UTC of a `YYYY-MM-DD` date, or
/// `None` when the text is not one: chrono's
/// `NaiveDate::parse_from_str(text, "%Y-%m-%d")` taken at 00:00:00 UTC.
pub uninterp spec fn ymd_midnight_secs(text: Seq<char>) -> Option<i64>;

/// The instant `delta` seconds after an instant (chrono's
/// `DateTime + TimeDelta::seconds(delta)`): `None` when the instant itself
/// lies outside chrono's range, when `delta` exceeds what a `TimeDelta`
/// holds (`i64::MAX` milliseconds either way), or when the sum leaves
/// chrono's range; otherwise the shifted instant.
pub open spec fn utc_plus_seconds(secs: i64, nanos: u32, delta: i64) -> Option<(i64, u32)> {
    let t = shifted_instant(secs as int, nanos as int, delta as int);
    if utc_rfc3339_text(secs, nanos) is Some && -(i64::MAX / 1000) <= delta <= i64::MAX / 1000
        && utc_rfc3339_text(t.0 as i64, t.1 as u32) is Some {
        Some((t.0 as i64, t.1 as u32))
    } else {
        None
    }
}

/// The instant `delta` whole seconds after (`secs`, `nanos`): the seconds
/// move and the fraction stays. An instant inside a leap second
/// (`nanos` of a second or more) leaves it when `delta` is not zero.
pub open spec fn shifted_instant(secs: int, nanos: int, delta: int) -> (int, int) {
    if nanos < 1_000_000_000 || delta == 0 {
        (secs + delta, nanos)
    } else if delta > 0 {
        (secs + delta, nanos - 1_000_000_000)
    } else {
        (secs + delta + 1, nanos - 1_000_000_000)
    }
}

/// Calls chrono's `DateTime::<Utc>::from_timestamp`, `TimeDelta::try_seconds`
/// and `checked_add_signed`.
///
/// Trusted: the contract claims that the result is `utc_plus_seconds` of the
/// instant and the seconds: `from_timestamp` fails outside chrono's range,
/// `try_seconds` beyond `TimeDelta`'s bound, and `checked_add_signed` when
/// the sum leaves the range; a sum is the instant `shifted_instant` gives
/// (chrono's `NaiveTime::overflowing_add_signed` on a whole number of
/// seconds), which then fits in an `i64`, and lies within chrono's range.
#[verifier::external_body]
fn plus_seconds_parts(secs: i64, nanos: u32, delta: i64) -> (r: Option<(i64, u32)>)
    ensures
        r == utc_plus_seconds(secs, nanos, delta),
        r matches Some(p) ==> (p.0 as int, p.1 as int) == shifted_instant(secs as int, nanos as int, delta as int),
        r matches Some(p) ==> (Timestamp { secs: p.0, nanos: p.1 }).wf() && utc_rfc3339_text(p.0, p.1) is Some,
{
    let d = chrono::DateTime::from_timestamp(secs, nanos)?;
    let t = chrono::TimeDelta::try_seconds(delta)?;
    let e = d.checked_add_signed(t)?;
    Some((e.timestamp(), e.timestamp_subsec_nanos()))
}

/// The two strftime patterns the tracker formats with.
pub open spec fn known_pattern(pattern: Seq<char>) -> bool {
    pattern == "%Y%m%dT%H%M%SZ"@ || pattern == "%Y-%m-%d"@
}

/// A parse result with its error message taken as text.
pub open spec fn parse_outcome(r: Result<(i64, u32), String>) -> Result<(i64, u32), Seq<char>> {
    match r {
        Ok(p) => Ok(p),
        Err(m) => Err(m@),
    }
}

/// Calls `chrono::DateTime::parse_from_rfc3339` and reads back the instant,
/// or the text of the parse error.
///
/// Trusted: the contract claims that the result is `rfc3339_parse` of the
/// text; that a parsed instant lies within chrono's range (so it can be
/// written back in UTC, in RFC 3339 and with the known patterns); and that
/// an error's text is one of the messages `ParseError`'s `Display` writes,
/// the one for too short an input when the text has fewer than 19 bytes
/// (chrono's `format::parse::parse_rfc3339` checks that first).
#[verifier::external_body]
fn parse_rfc3339_parts(text: &str) -> (r: Result<(i64, u32), String>)
    ensures
        parse_outcome(r) == rfc3339_parse(text@),
        r matches Ok(p) ==> {
            &&& (Timestamp { secs: p.0, nanos: p.1 }).wf()
            &&& utc_rfc3339_text(p.0, p.1) is Some
            &&& forall|pat: Seq<char>| known_pattern(pat) ==> #[trigger] utc_format_text(p.0, p.1, pat) is Some
        },
        r matches Ok(_) ==> encode_utf8(text@).len() >= 19,
        r matches Err(m) ==> parse_error_message(m@) && (encode_utf8(text@).len() < 19 ==> m@ == "premature end of input"@),
{
    match chrono::DateTime::parse_from_rfc3339(text) {
        Ok(d) => Ok((d.timestamp(), d.timestamp_subsec_nanos())),
        Err(e) => Err(e.to_string()),
    }
}

/// Calls `chrono::NaiveDate::parse_from_str(text, "%Y-%m-%d")` and takes
/// the date at midnight UTC.
///
/// Trusted: the contract claims that the result is `ymd_midnight_secs` of
/// the text, and that such a midnight lies within chrono's range.
#[verifier::external_body]
fn parse_ymd_midnight(text: &str) -> (r: Option<i64>)
    ensures
        r == ymd_midnight_secs(text@),
        r matches Some(s) ==> (Timestamp { secs: s, nanos: 0 }).wf() && utc_rfc3339_text(s, 0) is Some,
{
    match chrono::NaiveDate::parse_from_str(text, "%Y-%m-%d") {
        Ok(d) => match d.and_hms_opt(0, 0, 0) {
            Some(t) => Some(t.and_utc().timestamp()),
            None => None,
        },
        Err(_) => None,
    }
}

/// Calls `chrono::DateTime::<Utc>::from_timestamp` and `to_rfc3339`.
///
/// Trusted: the contract claims that the result is `utc_rfc3339_text` of
/// the instant.
#[verifier::external_body]
fn rfc3339_text_of(secs: i64, nanos: u32) -> (r: Option<String>)
    ensures
        r is Some <==> utc_rfc3339_text(secs, nanos) is Some,
        r matches Some(t) ==> utc_rfc3339_text(secs, nanos) == Some(t@),
{
    match chrono::DateTime::from_timestamp(secs, nanos) {
        Some(d) => Some(d.to_rfc3339()),
        None => None,
    }
}

/// Calls `chrono::DateTime::<Utc>::from_timestamp` and `format(pattern)`.
///
/// Trusted: the contract claims that the result is `utc_format_text` of the
/// instant and pattern. Only the patterns of `known_pattern` are accepted:
/// chrono writes them without error.
#[verifier::external_body]
fn format_text_of(secs: i64, nanos: u32, pattern: &str) -> (r: Option<String>)
    requires
        known_pattern(pattern@),
    ensures
        r is Some <==> utc_format_text(secs, nanos, pattern@) is Some,
        r matches Some(t) ==> utc_format_text(secs, nanos, pattern@) == Some(t@),
{
    match chrono::DateTime::from_timestamp(secs, nanos) {
        Some(d) => Some(d.format(pattern).to_string()),
        None => None,
    }
}

/// The day of the month of an RFC 3339 date-time, read in the text's own
/// offset (chrono's `DateTime::parse_from_rfc3339` followed by `day()`), or
/// `None` when the text is not one.
pub uninterp spec fn rfc3339_day_of_month(text: Seq<char>) -> Option<u32>;

/// Calls `chrono::DateTime::parse_from_rfc3339` and `Datelike::day`.
///
/// Trusted: the contract claims that the result is `rfc3339_day_of_month`
/// of the text, and that a day lies between 1 and 31, as chrono documents
/// for `day()`.
#[verifier::external_body]
pub(crate) fn day_of_month(text: &str) -> (r: Option<u32>)
    ensures
        r == rfc3339_day_of_month(text@),
        r matches Some(d) ==> 1 <= d <= 31,
{
    match chrono::DateTime::parse_from_rfc3339(text) {
        Ok(d) => Some(chrono::Datelike::day(&d)),
        Err(_) => None,
    }
}

/// The instant of an RFC 3339 text, as a timestamp.
pub open spec fn parsed_instant(text: Seq<char>) -> Option<Timestamp> {
    match rfc3339_instant(text) {
        Some(p) => Some(Timestamp { secs: p.0, nanos: p.1 }),
        None => None,
    }
}

/// Parses an RFC 3339 date-time (any offset) into the instant it denotes,
/// or says, in chrono's words, why the text is not one.
pub fn read_rfc3339(text: &str) -> (r: Result<Timestamp, String>)
    ensures
        r is Ok <==> parsed_instant(text@) is Some,
        r matches Ok(t) ==> Some(t) == parsed_instant(text@) && t.wf() && utc_rfc3339_text(t.secs, t.nanos) is Some,
        r matches Err(m) ==> m@ == rfc3339_error_text(text@) && parse_error_message(m@),
{
    match parse_rfc3339_parts(text) {
        Ok(p) => Ok(Timestamp { secs: p.0, nanos: p.1 }),
        Err(m) => Err(m),
    }
}

/// Parses an RFC 3339 date-time (any offset) into the instant it denotes.
pub fn parse_rfc3339(text: &str) -> (r: Option<Timestamp>)
    ensures
        r == parsed_instant(text@),
        r matches Some(t) ==> t.wf() && utc_rfc3339_text(t.secs, t.nanos) is Some,
{
    match read_rfc3339(text) {
        Ok(t) => Some(t),
        Err(_) => None,
    }
}

impl Timestamp {
    /// The instant `delta` seconds later, or `None` when it falls outside
    /// chrono's range.
    pub fn plus_seconds(&self, delta: i64) -> (t: Option<Timestamp>)
        ensures
            t is Some <==> utc_plus_seconds(self.secs, self.nanos, delta) is Some,
            t matches Some(x) ==> utc_plus_seconds(self.secs, self.nanos, delta) == Some((x.secs, x.nanos))
                && x.wf() && utc_rfc3339_text(x.secs, x.nanos) is Some
                && (x.secs as int, x.nanos as int) == shifted_instant(self.secs as int, self.nanos as int, delta as int),
    {
        match plus_seconds_parts(self.secs, self.nanos, delta) {
            Some(p) => Some(Timestamp { secs: p.0, nanos: p.1 }),
            None => None,
        }
    }

    /// The RFC 3339 text of the instant in UTC, or `None` when the instant
    /// lies outside chrono's range.
    pub fn rfc3339(&self) -> (t: Option<String>)
        ensures
            t is Some <==> utc_rfc3339_text(self.secs, self.nanos) is Some,
            t matches Some(x) ==> utc_rfc3339_text(self.secs, self.nanos) == Some(x@),
    {
        rfc3339_text_of(self.secs, self.nanos)
    }

    /// The RFC 3339 text of the instant in UTC (`+00:00`), as chrono writes
    /// it.
    pub fn to_rfc3339(&self) -> (t: String)
        requires
            utc_rfc3339_text(self.secs, self.nanos) is Some,
        ensures
            utc_rfc3339_text(self.secs, self.nanos) == Some(t@),
    {
        match rfc3339_text_of(self.secs, self.nanos) {
            Some(t) => t,
            None => String::new(),
        }
    }
}

/// Why a date could not be read.
#[derive(Debug)]
pub enum DateError {
    /// The text is neither `YYYY-MM-DD` nor RFC 3339.
    Invalid(String),
}

impl DateError {
    /// The message shown to the user.
    pub fn message(&self) -> (m: String)
        ensures
            self matches DateError::Invalid(s) ==> m@ == "Invalid date format: '"@ + s@
                + "'. Use YYYY-MM-DD or RFC3339."@,
    {
        match self {
            DateError::Invalid(s) => {
                let mut m = String::from_str("Invalid date format: '");
                m.append(s.as_str());
                m.append("'. Use YYYY-MM-DD or RFC3339.");
                m
            },
        }
    }
}

/// The instant a user-supplied date denotes: an RFC 3339 date-time as it
/// is, or a `YYYY-MM-DD` date at the start of the day in UTC.
pub open spec fn date_input(text: Seq<char>) -> Option<Timestamp> {
    match parsed_instant(text) {
        Some(t) => Some(t),
        None => match ymd_midnight_secs(text) {
            Some(s) => Some(Timestamp { secs: s, nanos: 0 }),
            None => None,
        },
    }
}

/// Parses a user-supplied date: RFC 3339 (`2026-06-19T09:00:00Z`, any
/// offset) or a plain date (`2026-06-19`, taken at 00:00 UTC).
pub fn parse_date(date_str: &str) -> (r: Result<Timestamp, DateError>)
    ensures
        date_input(date_str@) matches Some(t) ==> r == Ok::<Timestamp, DateError>(t),
        date_input(date_str@) is None ==> (r matches Err(DateError::Invalid(s)) && s@ == date_str@),
        r matches Ok(t) ==> t.wf() && utc_rfc3339_text(t.secs, t.nanos) is Some,
{
    if let Some(t) = parse_rfc3339(date_str) {
        return Ok(t);
    }
    match parse_ymd_midnight(date_str) {
        Some(s) => Ok(Timestamp { secs: s, nanos: 0 }),
        None => Err(DateError::Invalid(String::from_str(date_str))),
    }
}

/// The iCalendar UTC form (`YYYYMMDDTHHMMSSZ`) of an RFC 3339 text, or the
/// text unchanged when it does not parse.
pub open spec fn ical_datetime_text(rfc3339: Seq<char>) -> Seq<char> {
    match rfc3339_instant(rfc3339) {
        Some(p) => utc_format_text(p.0, p.1, "%Y%m%dT%H%M%SZ"@).unwrap(),
        None => rfc3339,
    }
}

/// Formats an RFC 3339 timestamp as an iCal UTC datetime
/// (`YYYYMMDDTHHMMSSZ`); text that does not parse is kept as it is.
pub fn ical_datetime(rfc3339: &str) -> (t: String)
    ensures
        t@ == ical_datetime_text(rfc3339@),
{
    match parse_rfc3339_parts(rfc3339) {
        Ok(p) => {
            proof {
                reveal_strlit("%Y%m%dT%H%M%SZ");
                assert(known_pattern("%Y%m%dT%H%M%SZ"@));
            }
            match format_text_of(p.0, p.1, "%Y%m%dT%H%M%SZ") {
                Some(t) => t,
                None => String::new(),
            }
        },
        Err(_) => String::from_str(rfc3339),
    }
}

/// The UTC calendar date (`YYYY-MM-DD`) of an RFC 3339 text, or the text
/// unchanged when it does not parse.
pub open spec fn utc_date_text(rfc3339: Seq<char>) -> Seq<char> {
    match rfc3339_instant(rfc3339) {
        Some(p) => utc_format_text(p.0, p.1, "%Y-%m-%d"@).unwrap(),
        None => rfc3339,
    }
}

/// The UTC date (`YYYY-MM-DD`) on which an entry started, as invoices list
/// it; text that does not parse is kept as it is.
pub fn utc_date(rfc3339: &str) -> (t: String)
    ensures
        t@ == utc_date_text(rfc3339@),
{
    match parse_rfc3339_parts(rfc3339) {
        Ok(p) => {
            proof {
                reveal_strlit("%Y-%m-%d");
                assert(known_pattern("%Y-%m-%d"@));
            }
            match format_text_of(p.0, p.1, "%Y-%m-%d") {
                Some(t) => t,
                None => String::new(),
            }
        },
        Err(_) => String::from_str(rfc3339),
    }
}

} // verus!
