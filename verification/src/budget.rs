//! Project budgets: the progress bar shown next to each budget and the rule
//! that decides which budgets deserve a warning.

use vstd::prelude::*;
use crate::text::{push_char, push_repeat, repeat};

verus! {

/// The text of `render_budget_bar`: `[No budget]` for a budget that is not
/// positive, else the percentage in brackets followed by `width` cells, the
/// first `filled` of them full (`\u{2588}`) and the rest empty (`\u{2591}`).
pub open spec fn budget_bar_text(budget: int, width: int, filled: int, percent: Seq<char>) -> Seq<char> {
    if budget <= 0 {
        "[No budget]"@
    } else {
        seq!['['] + percent + "%] "@ + repeat('\u{2588}', filled as nat) + repeat(
            '\u{2591}',
            (width - filled) as nat,
        )
    }
}

/// Renders a budget's progress bar of `width` cells. The share used is
/// scaled in floating point by the caller, which hands in the number of
/// full cells and the percentage as printed.
pub fn render_budget_bar(budget_seconds: i64, width: usize, filled: usize, percent: &str) -> (bar: String)
    requires
        budget_seconds > 0 ==> filled <= width,
    ensures
        bar@ == budget_bar_text(budget_seconds as int, width as int, filled as int, percent@),
{
    if budget_seconds <= 0 {
        proof {
            reveal_strlit("[No budget]");
        }
        return String::from_str("[No budget]");
    }
    let mut out = String::new();
    push_char(&mut out, '[');
    out.append(percent);
    out.append("%] ");
    push_repeat(&mut out, '\u{2588}', filled);
    push_repeat(&mut out, '\u{2591}', width - filled);
    proof {
        reveal_strlit("%] ");
    }
    assert(out@ =~= budget_bar_text(budget_seconds as int, width as int, filled as int, percent@));
    out
}

/// A bar always has `width` cells, `filled` of them full, whatever share
/// it shows.
pub proof fn law_budget_bar_cells(budget: int, width: int, filled: int, percent: Seq<char>)
    requires
        budget > 0,
        0 <= filled <= width,
    ensures
        budget_bar_text(budget, width, filled, percent).len() == 4 + percent.len() + width,
        budget_bar_text(budget, width, filled, percent).skip(4 + percent.len() as int) =~= repeat(
            '\u{2588}',
            filled as nat,
        ) + repeat('\u{2591}', (width - filled) as nat),
{
    reveal_strlit("%] ");
    let t = budget_bar_text(budget, width, filled, percent);
    let head = seq!['['] + percent + "%] "@;
    assert(head.len() == 4 + percent.len());
    assert(t == head + (repeat('\u{2588}', filled as nat) + repeat('\u{2591}', (width - filled) as nat)));
}

/// Whether a budget of `budget` seconds with `used` seconds spent calls for
/// a warning: the budget is positive and at least 80% of it is used.
pub open spec fn warns(budget: int, used: int) -> bool {
    budget > 0 && used * 5 >= budget * 4
}

/// Tests `warns`.
pub fn budget_warns(budget_seconds: i64, used_seconds: i64) -> (b: bool)
    ensures
        b == warns(budget_seconds as int, used_seconds as int),
{
    budget_seconds > 0 && (used_seconds as i128) * 5 >= (budget_seconds as i128) * 4
}

/// The budgets, as `(project, budget_seconds, used_seconds)`, that deserve a
/// warning.
pub open spec fn budgets_to_warn(budgets: Seq<(String, i64, i64)>) -> Seq<(String, i64, i64)> {
    budgets.filter(|b: (String, i64, i64)| warns(b.1 as int, b.2 as int))
}

/// Picks, in order, the budgets (`(project, budget_seconds, used_seconds)`)
/// whose usage reached 80% of a positive budget; the caller notifies the
/// user of each.
pub fn check_budget_warnings(budgets: &Vec<(String, i64, i64)>) -> (warnings: Vec<
    (String, i64, i64),
>)
    ensures
        warnings@ == budgets_to_warn(budgets@),
{
    let mut out: Vec<(String, i64, i64)> = Vec::new();
    let mut i: usize = 0;
    while i < budgets.len()
        invariant
            i <= budgets@.len(),
            out@ == budgets_to_warn(budgets@.subrange(0, i as int)),
        decreases budgets.len() - i,
    {
        let b = &budgets[i];
        proof {
            let s = budgets@.subrange(0, i + 1);
            assert(s.drop_last() =~= budgets@.subrange(0, i as int));
            reveal_with_fuel(Seq::filter, 1);
        }
        if budget_warns(b.1, b.2) {
            out.push((b.0.clone(), b.1, b.2));
        }
        i = i + 1;
    }
    assert(budgets@.subrange(0, budgets@.len() as int) =~= budgets@);
    out
}

} // verus!
