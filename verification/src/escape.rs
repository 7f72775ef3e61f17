//! Escaping of user text (task names, tags, client names) for the formats it
//! is exported to: iCalendar, HTML and Markdown tables.

use vstd::prelude::*;
use crate::text::push_char;

verus! {

/// What one character becomes in an iCalendar text value (RFC 5545):
/// backslash, semicolon, comma and newline are escaped with a backslash.
pub open spec fn ical_char(c: char) -> Seq<char> {
    if c == '\\' {
        seq!['\\', '\\']
    } else if c == ';' {
        seq!['\\', ';']
    } else if c == ',' {
        seq!['\\', ',']
    } else if c == '\n' {
        seq!['\\', 'n']
    } else {
        seq![c]
    }
}

/// What one character becomes in HTML text: `&`, `<`, `>`, `"` and `'` are
/// written as character references.
pub open spec fn html_char(c: char) -> Seq<char> {
    if c == '&' {
        seq!['&', 'a', 'm', 'p', ';']
    } else if c == '<' {
        seq!['&', 'l', 't', ';']
    } else if c == '>' {
        seq!['&', 'g', 't', ';']
    } else if c == '"' {
        seq!['&', 'q', 'u', 'o', 't', ';']
    } else if c == '\'' {
        seq!['&', '#', '3', '9', ';']
    } else {
        seq![c]
    }
}

/// What one character becomes in a Markdown table cell: a pipe is escaped
/// with a backslash.
pub open spec fn md_char(c: char) -> Seq<char> {
    if c == '|' {
        seq!['\\', '|']
    } else {
        seq![c]
    }
}

/// `s` escaped for iCalendar.
pub open spec fn ical_escaped(s: Seq<char>) -> Seq<char> {
    escape_seq(s, |c: char| ical_char(c))
}

/// `s` escaped for HTML.
pub open spec fn html_escaped(s: Seq<char>) -> Seq<char> {
    escape_seq(s, |c: char| html_char(c))
}

/// `s` escaped for a Markdown table.
pub open spec fn md_escaped(s: Seq<char>) -> Seq<char> {
    escape_seq(s, |c: char| md_char(c))
}

/// `s` with each character replaced by its image under `f`.
pub open spec fn escape_seq(s: Seq<char>, f: spec_fn(char) -> Seq<char>) -> Seq<char>
    decreases s.len(),
{
    if s.len() == 0 {
        Seq::empty()
    } else {
        escape_seq(s.drop_last(), f) + f(s.last())
    }
}

proof fn lemma_escape_step(s: Seq<char>, i: int, f: spec_fn(char) -> Seq<char>)
    requires
        0 <= i < s.len(),
    ensures
        escape_seq(s.subrange(0, i + 1), f) == escape_seq(s.subrange(0, i), f) + f(s[i]),
{
    assert(s.subrange(0, i + 1).drop_last() =~= s.subrange(0, i));
}

/// Escapes text for an iCalendar value (`\`, `;`, `,` and newlines).
pub fn ical_escape(text: &str) -> (out: String)
    ensures
        out@ == ical_escaped(text@),
{
    let n = text.unicode_len();
    let mut out = String::new();
    let mut i: usize = 0;
    while i < n
        invariant
            i <= n,
            n == text@.len(),
            out@ == escape_seq(text@.subrange(0, i as int), |c: char| ical_char(c)),
        decreases n - i,
    {
        let c = text.get_char(i);
        proof {
            lemma_escape_step(text@, i as int, |c: char| ical_char(c));
        }
        if c == '\\' {
            push_char(&mut out, '\\');
            push_char(&mut out, '\\');
        } else if c == ';' {
            push_char(&mut out, '\\');
            push_char(&mut out, ';');
        } else if c == ',' {
            push_char(&mut out, '\\');
            push_char(&mut out, ',');
        } else if c == '\n' {
            push_char(&mut out, '\\');
            push_char(&mut out, 'n');
        } else {
            push_char(&mut out, c);
        }
        i = i + 1;
        assert(out@ =~= escape_seq(text@.subrange(0, i as int), |c: char| ical_char(c)));
    }
    assert(text@.subrange(0, n as int) =~= text@);
    out
}

fn push_all(out: &mut String, chars: &[char])
    ensures
        final(out)@ == old(out)@ + chars@,
{
    let mut i: usize = 0;
    while i < chars.len()
        invariant
            i <= chars@.len(),
            out@ == old(out)@ + chars@.subrange(0, i as int),
        decreases chars.len() - i,
    {
        push_char(out, chars[i]);
        i = i + 1;
        assert(out@ =~= old(out)@ + chars@.subrange(0, i as int));
    }
    assert(chars@.subrange(0, chars@.len() as int) =~= chars@);
}

/// Escapes user text for HTML output (`&`, `<`, `>`, `"`, `'`).
pub fn html_escape(s: &str) -> (out: String)
    ensures
        out@ == html_escaped(s@),
{
    let n = s.unicode_len();
    let mut out = String::new();
    let mut i: usize = 0;
    while i < n
        invariant
            i <= n,
            n == s@.len(),
            out@ == escape_seq(s@.subrange(0, i as int), |c: char| html_char(c)),
        decreases n - i,
    {
        let c = s.get_char(i);
        proof {
            lemma_escape_step(s@, i as int, |c: char| html_char(c));
        }
        if c == '&' {
            let a = ['&', 'a', 'm', 'p', ';'];
            push_all(&mut out, &a);
        } else if c == '<' {
            let a = ['&', 'l', 't', ';'];
            push_all(&mut out, &a);
        } else if c == '>' {
            let a = ['&', 'g', 't', ';'];
            push_all(&mut out, &a);
        } else if c == '"' {
            let a = ['&', 'q', 'u', 'o', 't', ';'];
            push_all(&mut out, &a);
        } else if c == '\'' {
            let a = ['&', '#', '3', '9', ';'];
            push_all(&mut out, &a);
        } else {
            push_char(&mut out, c);
        }
        i = i + 1;
        assert(out@ =~= escape_seq(s@.subrange(0, i as int), |c: char| html_char(c)));
    }
    assert(s@.subrange(0, n as int) =~= s@);
    out
}

/// Escapes pipes so that text cannot break a Markdown table.
pub fn md_escape(s: &str) -> (out: String)
    ensures
        out@ == md_escaped(s@),
{
    let n = s.unicode_len();
    let mut out = String::new();
    let mut i: usize = 0;
    while i < n
        invariant
            i <= n,
            n == s@.len(),
            out@ == escape_seq(s@.subrange(0, i as int), |c: char| md_char(c)),
        decreases n - i,
    {
        let c = s.get_char(i);
        proof {
            lemma_escape_step(s@, i as int, |c: char| md_char(c));
        }
        if c == '|' {
            push_char(&mut out, '\\');
        }
        push_char(&mut out, c);
        i = i + 1;
        assert(out@ =~= escape_seq(s@.subrange(0, i as int), |c: char| md_char(c)));
    }
    assert(s@.subrange(0, n as int) =~= s@);
    out
}

/// If no image under `f` holds `x`, neither does the escaped text.
pub proof fn lemma_escape_avoids(s: Seq<char>, f: spec_fn(char) -> Seq<char>, x: char)
    requires
        forall|c: char| !(#[trigger] f(c)).contains(x),
    ensures
        !escape_seq(s, f).contains(x),
    decreases s.len(),
{
    if s.len() > 0 {
        lemma_escape_avoids(s.drop_last(), f, x);
        let a = escape_seq(s.drop_last(), f);
        let b = f(s.last());
        if (a + b).contains(x) {
            let k = choose|k: int| 0 <= k < (a + b).len() && (a + b)[k] == x;
            if k < a.len() {
                assert(a[k] == x);
            } else {
                assert(b[k - a.len()] == x);
                assert(b.contains(x));
            }
        }
    }
}

/// Characters that `f` keeps as they are leave the text unchanged.
pub proof fn lemma_escape_identity(s: Seq<char>, f: spec_fn(char) -> Seq<char>)
    requires
        forall|i: int| 0 <= i < s.len() ==> f(#[trigger] s[i]) == seq![s[i]],
    ensures
        escape_seq(s, f) == s,
    decreases s.len(),
{
    if s.len() > 0 {
        lemma_escape_identity(s.drop_last(), f);
        assert(f(s[s.len() - 1]) == seq![s.last()]);
        assert(s.drop_last() + seq![s.last()] =~= s);
    }
}

/// HTML escaping leaves no markup characters: the output holds no `<`,
/// `>`, `"` or `'`.
pub proof fn law_html_escape_removes_markup(s: Seq<char>)
    ensures
        !html_escaped(s).contains('<'),
        !html_escaped(s).contains('>'),
        !html_escaped(s).contains('"'),
        !html_escaped(s).contains('\''),
{
    let f = |c: char| html_char(c);
    assert forall|c: char| !(#[trigger] f(c)).contains('<') by {
        if f(c).contains('<') {
            let k = choose|k: int| 0 <= k < f(c).len() && #[trigger] f(c)[k] == '<';
        }
    }
    assert forall|c: char| !(#[trigger] f(c)).contains('>') by {
        if f(c).contains('>') {
            let k = choose|k: int| 0 <= k < f(c).len() && #[trigger] f(c)[k] == '>';
        }
    }
    assert forall|c: char| !(#[trigger] f(c)).contains('"') by {
        if f(c).contains('"') {
            let k = choose|k: int| 0 <= k < f(c).len() && #[trigger] f(c)[k] == '"';
        }
    }
    assert forall|c: char| !(#[trigger] f(c)).contains('\'') by {
        if f(c).contains('\'') {
            let k = choose|k: int| 0 <= k < f(c).len() && #[trigger] f(c)[k] == '\'';
        }
    }
    lemma_escape_avoids(s, f, '<');
    lemma_escape_avoids(s, f, '>');
    lemma_escape_avoids(s, f, '"');
    lemma_escape_avoids(s, f, '\'');
}

/// iCalendar escaping leaves no raw line break in a value.
pub proof fn law_ical_escape_single_line(s: Seq<char>)
    ensures
        !ical_escaped(s).contains('\n'),
{
    let f = |c: char| ical_char(c);
    assert forall|c: char| !(#[trigger] f(c)).contains('\n') by {
        if f(c).contains('\n') {
            let k = choose|k: int| 0 <= k < f(c).len() && #[trigger] f(c)[k] == '\n';
        }
    }
    lemma_escape_avoids(s, f, '\n');
}

/// After Markdown escaping every pipe is preceded by a backslash, so none
/// of them ends a table cell.
pub proof fn law_md_pipes_escaped(s: Seq<char>)
    ensures
        forall|i: int|
            0 <= i < md_escaped(s).len() && #[trigger] md_escaped(s)[i] == '|' ==> i > 0
                && md_escaped(s)[i - 1] == '\\',
    decreases s.len(),
{
    if s.len() > 0 {
        law_md_pipes_escaped(s.drop_last());
        let a = md_escaped(s.drop_last());
        let b = md_char(s.last());
        assert(md_escaped(s) == a + b);
        assert forall|i: int| 0 <= i < (a + b).len() && #[trigger] (a + b)[i] == '|' implies i > 0
            && (a + b)[i - 1] == '\\' by {
            if i < a.len() {
                assert(a[i] == '|');
            } else if s.last() == '|' {
                assert(b == seq!['\\', '|']);
            }
        }
    }
}

/// Text without characters that need escaping comes out unchanged, in each
/// of the three formats.
pub proof fn law_plain_text_unchanged(s: Seq<char>)
    requires
        forall|i: int|
            0 <= i < s.len() ==> {
                let c = #[trigger] s[i];
                c != '\\' && c != ';' && c != ',' && c != '\n' && c != '&' && c != '<' && c
                    != '>' && c != '"' && c != '\'' && c != '|'
            },
    ensures
        ical_escaped(s) == s,
        html_escaped(s) == s,
        md_escaped(s) == s,
{
    lemma_escape_identity(s, |c: char| ical_char(c));
    lemma_escape_identity(s, |c: char| html_char(c));
    lemma_escape_identity(s, |c: char| md_char(c));
}

} // verus!
