//! Terminal bar charts of tracked time, drawn with Unicode block
//! characters. Each bar's length and its value label come from the
//! caller, which scales the values in floating point; the chart lays out
//! the labels, bars, value column and axis.

use vstd::prelude::*;
use vstd::utf8::encode_utf8;
use crate::text::{pad_left, push_char, push_repeat, repeat, views};

verus! {

/// One bar as the caller scaled it: whole cells, eighths of the partial
/// cell after them (0 to 8), and the value in hours as printed (without
/// the unit).
pub struct BarCells {
    pub full: usize,
    pub eighths: usize,
    pub hours: String,
}

/// Number of bytes of `s` in UTF-8 (what `str::len` counts).
pub open spec fn byte_len(s: Seq<char>) -> int {
    (encode_utf8(s).len() as usize) as int
}

/// The widest label in bytes, capped at 12.
pub open spec fn widest_label(labels: Seq<Seq<char>>) -> int
    decreases labels.len(),
{
    if labels.len() == 0 {
        0
    } else {
        let w = widest_label(labels.drop_last());
        let l = byte_len(labels.last());
        let m = if l > w { l } else { w };
        if m > 12 { 12 } else { m }
    }
}

/// The labels of the chart's rows.
pub open spec fn labels_of(data: Seq<(String, BarCells)>) -> Seq<Seq<char>> {
    data.map_values(|p: (String, BarCells)| p.0@)
}

/// `a - b`, or zero when `b > a`.
pub open spec fn sat(a: int, b: int) -> int {
    if a >= b { a - b } else { 0 }
}

/// The width left for the bars: the chart width less the label column and
/// four columns of frame and spacing.
pub open spec fn bar_width_of(labels: Seq<Seq<char>>, max_width: int) -> int {
    sat(max_width, widest_label(labels) + 4)
}

/// The block character for `e` eighths of a cell (1 to 8).
pub open spec fn partial_block(e: int) -> char {
    ((0x2588 + 8 - e) as u32) as char
}

/// The bar of one row: the whole cells, then the partial cell when there
/// is one and room for it.
pub open spec fn bar_text(c: BarCells, bmw: int) -> Seq<char> {
    repeat('\u{2588}', c.full as nat) + if c.eighths > 0 && c.full < bmw {
        seq![partial_block(c.eighths as int)]
    } else {
        Seq::empty()
    }
}

/// The label of one row: truncated to `lw` characters when longer than
/// `lw` bytes, otherwise right-aligned in `lw` characters.
pub open spec fn row_label(label: Seq<char>, lw: int) -> Seq<char> {
    if byte_len(label) > lw {
        if label.len() > lw { label.take(lw) } else { label }
    } else {
        pad_left(label, lw as nat, ' ')
    }
}

/// One row: label, `" \u{2502}"`, the bar, then the value in hours
/// right-aligned so that it ends one column after the full bar width.
pub open spec fn row_text(label: Seq<char>, c: BarCells, lw: int, bmw: int) -> Seq<char> {
    let bar = bar_text(c, bmw);
    let value = c.hours@ + seq!['h'];
    row_label(label, lw) + seq![' ', '\u{2502}'] + bar + pad_left(
        value,
        (sat(bmw, bar.len() as int) + 1 + value.len()) as nat,
        ' ',
    )
}

/// The rows of the first `k` values.
pub open spec fn rows(data: Seq<(String, BarCells)>, k: int, lw: int, bmw: int) -> Seq<Seq<char>>
    decreases k,
{
    if k <= 0 {
        Seq::empty()
    } else {
        rows(data, k - 1, lw, bmw).push(row_text(data[k - 1].0@, data[k - 1].1, lw, bmw))
    }
}

/// The lines of `tui_bar_chart`: the title, one row per value (as many as
/// fit in the height less two, at least one), and the axis; or the title
/// and `No data` for an empty chart.
pub open spec fn chart_lines(data: Seq<(String, BarCells)>, title: Seq<char>, max_width: int, max_height: int) -> Seq<Seq<char>> {
    if data.len() == 0 {
        seq![title, "No data"@]
    } else {
        let lw = widest_label(labels_of(data));
        let bmw = sat(max_width, lw + 4);
        let ch = if sat(max_height, 2) > 1 { sat(max_height, 2) } else { 1 };
        let k = if data.len() < ch { data.len() as int } else { ch };
        let axis = repeat(' ', lw as nat) + seq![' ', '\u{2514}'] + repeat(
            '\u{2500}',
            (if bmw < max_width { bmw } else { max_width }) as nat,
        );
        seq![title] + rows(data, k, lw, bmw) + seq![axis]
    }
}

fn label_width(data: &Vec<(String, BarCells)>) -> (w: usize)
    ensures
        w == widest_label(labels_of(data@)),
        w <= 12,
{
    let mut w: usize = 0;
    let mut i: usize = 0;
    while i < data.len()
        invariant
            i <= data@.len(),
            w == widest_label(labels_of(data@.subrange(0, i as int))),
            w <= 12,
        decreases data.len() - i,
    {
        assert(labels_of(data@.subrange(0, i + 1)).drop_last() =~= labels_of(data@.subrange(0, i as int)));
        let l = data[i].0.as_str().len();
        assert(labels_of(data@.subrange(0, i + 1)).last() == data@[i as int].0@);
        let m = if l > w { l } else { w };
        w = if m > 12 { 12 } else { m };
        i = i + 1;
    }
    assert(data@.subrange(0, data@.len() as int) =~= data@);
    w
}

/// The width left for the bars of a chart with these row labels within
/// `max_width` columns; the caller scales the bars to it.
pub fn bar_width(labels: &Vec<String>, max_width: usize) -> (bmw: usize)
    ensures
        bmw == bar_width_of(views(labels@), max_width as int),
{
    let mut w: usize = 0;
    let mut i: usize = 0;
    while i < labels.len()
        invariant
            i <= labels@.len(),
            w == widest_label(views(labels@.subrange(0, i as int))),
            w <= 12,
        decreases labels.len() - i,
    {
        assert(views(labels@.subrange(0, i + 1)).drop_last() =~= views(labels@.subrange(0, i as int)));
        let l = labels[i].as_str().len();
        assert(views(labels@.subrange(0, i + 1)).last() == labels@[i as int]@);
        let m = if l > w { l } else { w };
        w = if m > 12 { 12 } else { m };
        i = i + 1;
    }
    assert(labels@.subrange(0, labels@.len() as int) =~= labels@);
    if max_width >= w + 4 { max_width - (w + 4) } else { 0 }
}

/// Appends the label of a row.
fn push_row_label(out: &mut String, label: &str, lw: usize)
    ensures
        final(out)@ == old(out)@ + row_label(label@, lw as int),
{
    if label.len() > lw {
        let n = label.unicode_len();
        let k = if n > lw { lw } else { n };
        out.append(label.substring_char(0, k));
        assert(row_label(label@, lw as int) =~= label@.subrange(0, k as int));
    } else {
        let n = label.unicode_len();
        if n < lw {
            push_repeat(out, ' ', lw - n);
        }
        out.append(label);
        assert(final(out)@ =~= old(out)@ + row_label(label@, lw as int));
    }
}

/// Appends the bar of a row; returns its number of characters.
fn push_bar(out: &mut String, c: &BarCells, bmw: usize) -> (n: usize)
    requires
        c.eighths <= 8,
    ensures
        final(out)@ == old(out)@ + bar_text(*c, bmw as int),
        n == bar_text(*c, bmw as int).len(),
{
    push_repeat(out, '\u{2588}', c.full);
    if c.eighths > 0 && c.full < bmw {
        let code = (0x2588u32 + 8 - c.eighths as u32) as u32;
        push_char(out, char_of(code));
        assert(final(out)@ =~= old(out)@ + bar_text(*c, bmw as int));
        c.full + 1
    } else {
        assert(final(out)@ =~= old(out)@ + bar_text(*c, bmw as int));
        c.full
    }
}

fn row(label: &str, c: &BarCells, lw: usize, bmw: usize) -> (r: String)
    requires
        c.eighths <= 8,
        bmw <= usize::MAX - 64,
    ensures
        r@ == row_text(label@, *c, lw as int, bmw as int),
{
    let mut out = String::new();
    push_row_label(&mut out, label, lw);
    push_char(&mut out, ' ');
    push_char(&mut out, '\u{2502}');
    let bar_len = push_bar(&mut out, c, bmw);
    let mut value = c.hours.clone();
    value.append("h");
    proof {
        reveal_strlit("h");
    }
    let gap: usize = (if bmw >= bar_len { bmw - bar_len } else { 0 }) + 1;
    push_repeat(&mut out, ' ', gap);
    out.append(value.as_str());
    proof {
        let bar = bar_text(*c, bmw as int);
        let val = c.hours@ + seq!['h'];
        assert(value@ =~= val);
        assert(repeat(' ', gap as nat) + val =~= pad_left(val, (sat(bmw as int, bar.len() as int) + 1 + val.len()) as nat, ' '));
    }
    assert(out@ =~= row_text(label@, *c, lw as int, bmw as int));
    out
}

/// The block character with code point `c` (the full block or one of the
/// eighth blocks).
fn char_of(c: u32) -> (ch: char)
    requires
        0x2588 <= c <= 0x258F,
    ensures
        ch == (c as char),
{
    if c == 0x2588 { '\u{2588}' } else if c == 0x2589 { '\u{2589}' } else if c == 0x258A { '\u{258A}' } else if c == 0x258B { '\u{258B}' }
    else if c == 0x258C { '\u{258C}' } else if c == 0x258D { '\u{258D}' } else if c == 0x258E { '\u{258E}' }
    else { '\u{258F}' }
}

/// Renders a horizontal bar chart for the terminal, within `max_width`
/// columns and `max_height` lines, from each row's label and bar.
pub fn tui_bar_chart(data: &Vec<(String, BarCells)>, title: &str, max_width: usize, max_height: usize) -> (lines: Vec<String>)
    requires
        max_width <= usize::MAX - 64,
        forall|i: int| 0 <= i < data@.len() ==> (#[trigger] data@[i]).1.eighths <= 8,
    ensures
        views(lines@) == chart_lines(data@, title@, max_width as int, max_height as int),
{
    let mut lines: Vec<String> = Vec::new();
    lines.push(String::from_str(title));
    if data.len() == 0 {
        lines.push(String::from_str("No data"));
        assert(views(lines@) =~= chart_lines(data@, title@, max_width as int, max_height as int));
        return lines;
    }
    let lw = label_width(data);
    let bmw: usize = if max_width >= lw + 4 { max_width - (lw + 4) } else { 0 };
    let ch: usize = if max_height >= 2 && max_height - 2 > 1 { max_height - 2 } else { 1 };
    let k: usize = if data.len() < ch { data.len() } else { ch };
    let mut i: usize = 0;
    while i < k
        invariant
            i <= k <= data@.len(),
            lw <= 12,
            bmw <= max_width <= usize::MAX - 64,
            forall|i: int| 0 <= i < data@.len() ==> (#[trigger] data@[i]).1.eighths <= 8,
            views(lines@) == seq![title@] + rows(data@, i as int, lw as int, bmw as int),
        decreases k - i,
    {
        assert(data@[i as int].1.eighths <= 8);
        let r = row(data[i].0.as_str(), &data[i].1, lw, bmw);
        let ghost rt = row_text(data@[i as int].0@, data@[i as int].1, lw as int, bmw as int);
        assert(r@ == rt);
        assert(rows(data@, i + 1, lw as int, bmw as int) == rows(data@, i as int, lw as int, bmw as int).push(rt));
        let ghost old_views = views(lines@);
        lines.push(r);
        assert(views(lines@) =~= old_views.push(rt));
        i = i + 1;
    }
    let mut axis = String::new();
    push_repeat(&mut axis, ' ', lw);
    push_char(&mut axis, ' ');
    push_char(&mut axis, '\u{2514}');
    push_repeat(&mut axis, '\u{2500}', if bmw < max_width { bmw } else { max_width });
    let ghost before = views(lines@);
    let ghost spec_axis = repeat(' ', lw as nat) + seq![' ', '\u{2514}'] + repeat(
        '\u{2500}',
        (if bmw < max_width { bmw } else { max_width }) as nat,
    );
    assert(axis@ =~= spec_axis);
    lines.push(axis);
    assert(views(lines@) =~= before.push(axis@));
    proof {
        let lwi = widest_label(labels_of(data@));
        let bmwi = sat(max_width as int, lwi + 4);
        assert(bmw == bmwi);
        let chi = if sat(max_height as int, 2) > 1 { sat(max_height as int, 2) } else { 1 };
        assert(ch == chi);
        let ki = if data@.len() < chi { data@.len() as int } else { chi };
        assert(k == ki);
        assert(views(lines@) == before.push(axis@));
    }
    assert(views(lines@) =~= chart_lines(data@, title@, max_width as int, max_height as int));
    lines
}

/// Renders the chart of time per project, at least five rows high.
pub fn tui_project_chart(data: &Vec<(String, BarCells)>, title: &str, max_width: usize) -> (lines: Vec<String>)
    requires
        max_width <= usize::MAX - 64,
        forall|i: int| 0 <= i < data@.len() ==> (#[trigger] data@[i]).1.eighths <= 8,
    ensures
        views(lines@) == chart_lines(data@, title@, max_width as int, if data@.len() > 5 { data@.len() as int } else { 5 }),
{
    let h = if data.len() > 5 { data.len() } else { 5 };
    tui_bar_chart(data, title, max_width, h)
}

/// Rows line up by characters, not bytes: a row whose bar fits the bar
/// width is its label, three columns of frame and spacing, the full bar
/// width and its value, whatever characters the bars are made of; and a
/// label takes exactly the label width.
pub proof fn law_rows_aligned(label: Seq<char>, c: BarCells, lw: int, bmw: int)
    requires
        c.full <= bmw,
        lw >= 0,
    ensures
        row_text(label, c, lw, bmw).len() == row_label(label, lw).len() + 3 + bmw + c.hours@.len() + 1,
        (byte_len(label) <= lw && label.len() <= lw) || (byte_len(label) > lw && label.len() >= lw)
            ==> row_label(label, lw).len() == lw,
{
}

} // verus!
