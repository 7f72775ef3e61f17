//! Webhook delivery: the extra request headers, given as `Name: value`
//! lines.

use vstd::prelude::*;
use crate::text::{split_char, split_on, trim, trim_str, views};

verus! {

/// The lines of `s` as `str::lines` yields them: split at `\n`, a `\r`
/// before a `\n` dropped, and no empty last line after a final `\n`.
pub open spec fn text_lines(s: Seq<char>) -> Seq<Seq<char>> {
    let pieces = split_on(s, '\n');
    let n = pieces.len() as int;
    let kept: int = if pieces[n - 1].len() == 0 { n - 1 } else { n };
    Seq::new(kept as nat, |i: int| if i < n - 1 && pieces[i].len() > 0 && pieces[i].last() == '\r' {
        pieces[i].drop_last()
    } else {
        pieces[i]
    })
}

/// The header of one line: the trimmed text before and after its first
/// `:`, or none when the line has no `:`.
pub open spec fn header_of(line: Seq<char>) -> Option<(Seq<char>, Seq<char>)> {
    if exists|i: int| 0 <= i < line.len() && line[i] == ':' {
        let k = choose|i: int| 0 <= i < line.len() && line[i] == ':' && forall|j: int| 0 <= j < i ==> line[j] != ':';
        Some((trim(line.take(k)), trim(line.skip(k + 1))))
    } else {
        None
    }
}

/// Index of the first `:` of `line`, if any.
fn first_colon(line: &str) -> (r: Option<usize>)
    ensures
        r is None ==> forall|i: int| 0 <= i < line@.len() ==> line@[i] != ':',
        r matches Some(k) ==> k < line@.len() && line@[k as int] == ':' && forall|j: int| 0 <= j < k ==> line@[j] != ':',
{
    let n = line.unicode_len();
    let mut i: usize = 0;
    while i < n
        invariant
            i <= n,
            n == line@.len(),
            forall|j: int| 0 <= j < i ==> line@[j] != ':',
        decreases n - i,
    {
        if line.get_char(i) == ':' {
            return Some(i);
        }
        i = i + 1;
    }
    None
}

/// Reads `Name: value` lines into (name, value) pairs, both trimmed; lines
/// without a `:` are skipped.
pub fn parse_webhook_headers(headers: &str) -> (pairs: Vec<(String, String)>)
    ensures
        pairs@.map_values(|p: (String, String)| (p.0@, p.1@)) == header_list(text_lines(headers@)),
{
    let pieces = split_char(headers, '\n');
    proof {
        crate::text::lemma_split_nonempty(headers@, '\n');
    }
    let n = pieces.len();
    let kept: usize = if pieces[n - 1].as_str().unicode_len() == 0 { n - 1 } else { n };
    let mut out: Vec<(String, String)> = Vec::new();
    let mut i: usize = 0;
    let ghost ls = text_lines(headers@);
    assert(ls.len() == kept);
    while i < kept
        invariant
            kept <= n == pieces@.len(),
            ls == text_lines(headers@),
            views(pieces@) == split_on(headers@, '\n'),
            ls.len() == kept,
            out@.map_values(|p: (String, String)| (p.0@, p.1@)) == header_list(ls.subrange(0, i as int)),
            i <= kept,
        decreases kept - i,
    {
        let p = pieces[i].as_str();
        let len = p.unicode_len();
        let line: &str = if i + 1 < n && len > 0 && p.get_char(len - 1) == '\r' {
            p.substring_char(0, len - 1)
        } else {
            p
        };
        assert(line@ == ls[i as int]) by {
            assert(views(pieces@)[i as int] == pieces@[i as int]@);
        }
        let ghost before = out@.map_values(|p: (String, String)| (p.0@, p.1@));
        proof {
            assert(ls.subrange(0, i + 1).drop_last() =~= ls.subrange(0, i as int));
        }
        match first_colon(line) {
            Some(k) => {
                let name = trim_str(line.substring_char(0, k));
                let value = trim_str(line.substring_char(k + 1, line.unicode_len()));
                proof {
                    let lk = choose|j: int| 0 <= j < line@.len() && line@[j] == ':' && forall|m: int| 0 <= m < j ==> line@[m] != ':';
                    assert(lk == k as int) by {
                        if lk < k { assert(line@[lk] != ':'); }
                        if lk > k { assert(line@[k as int] != ':'); }
                    }
                    assert(line@.take(k as int) =~= line@.subrange(0, k as int));
                    assert(line@.skip(k + 1) =~= line@.subrange(k + 1, line@.len() as int));
                }
                out.push((name, value));
                assert(out@.map_values(|p: (String, String)| (p.0@, p.1@)) =~= before.push(header_of(ls[i as int])->0));
            },
            None => {
                assert(out@.map_values(|p: (String, String)| (p.0@, p.1@)) =~= before);
            },
        }
        i = i + 1;
    }
    assert(ls.subrange(0, kept as int) =~= ls);
    out
}

/// The headers of a list of lines, skipping those without a `:`.
pub open spec fn header_list(lines: Seq<Seq<char>>) -> Seq<(Seq<char>, Seq<char>)>
    decreases lines.len(),
{
    if lines.len() == 0 {
        Seq::empty()
    } else {
        let rest = header_list(lines.drop_last());
        match header_of(lines.last()) {
            Some(h) => rest.push(h),
            None => rest,
        }
    }
}

} // verus!
