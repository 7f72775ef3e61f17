//! Navigation state of the terminal UI: tabs, the selected entry, and the
//! prompt that offers to resume the task interrupted by idleness.

use vstd::prelude::*;
use crate::pomodoro::Moment;
use crate::text::{int_text, pad_left, pad_right, push_i128, push_padded_left, push_padded_right,
    trunc_div, trunc_rem};

verus! {

/// The tabs of the terminal UI.
#[derive(Clone, Copy, PartialEq, Eq, Debug, Structural)]
pub enum Tab {
    Entries,
    DailyChart,
    ProjectChart,
    Calendar,
}

/// A key press, as far as the UI distinguishes keys.
#[derive(Clone, Copy, PartialEq, Eq, Debug, Structural)]
pub enum Key {
    Char(char),
    Left,
    Right,
    Up,
    Down,
    Esc,
    Other,
}

/// What the UI loop is to do after a key.
#[derive(Debug)]
pub enum TuiAction {
    /// Leave the UI.
    Quit,
    /// Start tracking the interrupted task again.
    Resume { name: String, tags: Option<String> },
    /// Redraw.
    Continue,
}

/// The tab to the right (wrapping around).
pub open spec fn next_tab(t: Tab) -> Tab {
    match t {
        Tab::Entries => Tab::DailyChart,
        Tab::DailyChart => Tab::ProjectChart,
        Tab::ProjectChart => Tab::Calendar,
        Tab::Calendar => Tab::Entries,
    }
}

/// The tab to the left (wrapping around).
pub open spec fn prev_tab(t: Tab) -> Tab {
    match t {
        Tab::Entries => Tab::Calendar,
        Tab::DailyChart => Tab::Entries,
        Tab::ProjectChart => Tab::DailyChart,
        Tab::Calendar => Tab::ProjectChart,
    }
}

/// State of the terminal UI.
pub struct TuiState {
    pub tab: Tab,
    /// Index of the selected entry on the entries tab.
    pub selected: usize,
    /// When idleness was last checked.
    pub last_idle_check: Moment,
    pub was_idle: bool,
    /// Whether the resume prompt is shown.
    pub asking_resume: bool,
    /// The task that ran when the user went idle.
    pub last_entry_name: Option<String>,
    pub last_entry_tags: Option<String>,
    pub calendar_year: i32,
    pub calendar_month: u32,
}

/// Nanoseconds between idle checks: thirty seconds.
pub open spec fn idle_check_interval() -> int {
    30_000_000_000
}

impl TuiState {
    /// The UI at start-up: the entries tab, first entry selected, the
    /// calendar on the given month.
    pub fn new(year: i32, month: u32, now: Moment) -> (s: Self)
        ensures
            s.tab == Tab::Entries,
            s.selected == 0,
            s.last_idle_check == now,
            !s.was_idle,
            !s.asking_resume,
            s.last_entry_name is None,
            s.last_entry_tags is None,
            s.calendar_year == year,
            s.calendar_month == month,
    {
        TuiState {
            tab: Tab::Entries,
            selected: 0,
            last_idle_check: now,
            was_idle: false,
            asking_resume: false,
            last_entry_name: None,
            last_entry_tags: None,
            calendar_year: year,
            calendar_month: month,
        }
    }

    /// Whether idleness is to be checked at `now`: every thirty seconds,
    /// unless the resume prompt is shown.
    pub fn idle_check_due(&self, now: Moment) -> (b: bool)
        ensures
            b == (!self.asking_resume && now.nanos >= self.last_idle_check.nanos
                && now.nanos - self.last_idle_check.nanos >= idle_check_interval()),
    {
        !self.asking_resume && now.nanos >= self.last_idle_check.nanos
            && now.nanos - self.last_idle_check.nanos >= 30_000_000_000
    }

    /// The UI after an idle check at `now`: going idle is noted; coming
    /// back raises the resume prompt.
    pub open spec fn after_idle_check(self, is_idle: Option<bool>, now: Moment) -> Self {
        match is_idle {
            Some(true) => TuiState { was_idle: true, last_idle_check: now, ..self },
            Some(false) => if self.was_idle {
                TuiState { was_idle: false, asking_resume: true, last_idle_check: now, ..self }
            } else {
                TuiState { last_idle_check: now, ..self }
            },
            None => TuiState { last_idle_check: now, ..self },
        }
    }

    /// Records an idle check at `now` (`None` when idle time could not be
    /// read). Returns whether the user just went idle, in which case the
    /// caller hands in the running task with `remember_task`; coming back
    /// raises the resume prompt.
    pub fn record_idle_check(&mut self, is_idle: Option<bool>, now: Moment) -> (went_idle: bool)
        ensures
            *final(self) == old(self).after_idle_check(is_idle, now),
            went_idle == (is_idle == Some(true) && !old(self).was_idle),
    {
        let mut went = false;
        match is_idle {
            Some(true) => {
                if !self.was_idle {
                    went = true;
                    self.was_idle = true;
                }
            },
            Some(false) => {
                if self.was_idle {
                    self.asking_resume = true;
                    self.was_idle = false;
                }
            },
            None => {},
        }
        self.last_idle_check = now;
        went
    }

    /// Remembers the task that ran when the user went idle.
    pub fn remember_task(&mut self, name: String, tags: Option<String>)
        ensures
            *final(self) == (TuiState { last_entry_name: Some(name), last_entry_tags: tags, ..*old(self) }),
    {
        self.last_entry_name = Some(name);
        self.last_entry_tags = tags;
    }

    /// Whether a key answers the resume prompt with yes.
    pub open spec fn is_yes(key: Key) -> bool {
        key == Key::Char('y') || key == Key::Char('Y')
    }

    /// Whether a key dismisses the resume prompt.
    pub open spec fn is_no(key: Key) -> bool {
        key == Key::Char('n') || key == Key::Char('N') || key == Key::Char('q') || key == Key::Esc
    }

    /// Whether a key leaves the UI.
    pub open spec fn is_quit(key: Key) -> bool {
        key == Key::Char('q') || key == Key::Esc
    }

    /// The UI after a key, with `entries_len` entries listed.
    pub open spec fn after_key(self, key: Key, entries_len: int) -> Self {
        if self.asking_resume {
            if Self::is_yes(key) || Self::is_no(key) {
                TuiState { asking_resume: false, last_entry_name: None, last_entry_tags: None, ..self }
            } else {
                self
            }
        } else if Self::is_quit(key) {
            self
        } else if key == Key::Char('1') {
            TuiState { tab: Tab::Entries, ..self }
        } else if key == Key::Char('2') {
            TuiState { tab: Tab::DailyChart, ..self }
        } else if key == Key::Char('3') {
            TuiState { tab: Tab::ProjectChart, ..self }
        } else if key == Key::Char('4') {
            TuiState { tab: Tab::Calendar, ..self }
        } else if key == Key::Right || key == Key::Char('l') {
            TuiState { tab: next_tab(self.tab), ..self }
        } else if key == Key::Left || key == Key::Char('h') {
            TuiState { tab: prev_tab(self.tab), ..self }
        } else if key == Key::Down || key == Key::Char('j') {
            if self.tab == Tab::Entries && self.selected + 1 < entries_len {
                TuiState { selected: (self.selected + 1) as usize, ..self }
            } else {
                self
            }
        } else if key == Key::Up || key == Key::Char('k') {
            if self.tab == Tab::Entries && self.selected > 0 {
                TuiState { selected: (self.selected - 1) as usize, ..self }
            } else {
                self
            }
        } else {
            self
        }
    }

    /// What the UI loop does after a key: resume the remembered task on a
    /// yes to the prompt, leave on `q` or Esc outside it, else redraw.
    pub open spec fn key_action(self, key: Key) -> TuiAction {
        if self.asking_resume {
            if Self::is_yes(key) {
                match self.last_entry_name {
                    Some(n) => TuiAction::Resume { name: n, tags: self.last_entry_tags },
                    None => TuiAction::Continue,
                }
            } else {
                TuiAction::Continue
            }
        } else if Self::is_quit(key) {
            TuiAction::Quit
        } else {
            TuiAction::Continue
        }
    }

    /// Handles a key with `entries_len` entries listed. While the resume
    /// prompt is shown, `y` resumes the remembered task and `n`, `q` or Esc
    /// dismiss it; otherwise `q`/Esc quit, `1`-`4` pick a tab, the arrows
    /// (or `h`/`l`) cycle through tabs and `j`/`k` (or the arrows) move the
    /// selection within the entries.
    pub fn on_key(&mut self, key: Key, entries_len: usize) -> (a: TuiAction)
        ensures
            *final(self) == old(self).after_key(key, entries_len as int),
            a == old(self).key_action(key),
            old(self).selected < entries_len ==> final(self).selected < entries_len,
    {
        if self.asking_resume {
            if key == Key::Char('y') || key == Key::Char('Y') {
                let name = self.last_entry_name.take();
                let tags = self.last_entry_tags.take();
                self.asking_resume = false;
                return match name {
                    Some(n) => TuiAction::Resume { name: n, tags },
                    None => TuiAction::Continue,
                };
            }
            if key == Key::Char('n') || key == Key::Char('N') || key == Key::Char('q') || key == Key::Esc {
                self.asking_resume = false;
                self.last_entry_name = None;
                self.last_entry_tags = None;
            }
            return TuiAction::Continue;
        }
        if key == Key::Char('q') || key == Key::Esc {
            return TuiAction::Quit;
        }
        if key == Key::Char('1') {
            self.tab = Tab::Entries;
        } else if key == Key::Char('2') {
            self.tab = Tab::DailyChart;
        } else if key == Key::Char('3') {
            self.tab = Tab::ProjectChart;
        } else if key == Key::Char('4') {
            self.tab = Tab::Calendar;
        } else if key == Key::Right || key == Key::Char('l') {
            self.tab = match self.tab {
                Tab::Entries => Tab::DailyChart,
                Tab::DailyChart => Tab::ProjectChart,
                Tab::ProjectChart => Tab::Calendar,
                Tab::Calendar => Tab::Entries,
            };
        } else if key == Key::Left || key == Key::Char('h') {
            self.tab = match self.tab {
                Tab::Entries => Tab::Calendar,
                Tab::DailyChart => Tab::Entries,
                Tab::ProjectChart => Tab::DailyChart,
                Tab::Calendar => Tab::ProjectChart,
            };
        } else if key == Key::Down || key == Key::Char('j') {
            if self.tab == Tab::Entries && self.selected < entries_len && entries_len - self.selected > 1 {
                self.selected = self.selected + 1;
            }
        } else if key == Key::Up || key == Key::Char('k') {
            if self.tab == Tab::Entries && self.selected > 0 {
                self.selected = self.selected - 1;
            }
        }
        TuiAction::Continue
    }
}

/// The tab bar, with the current tab in brackets.
pub open spec fn tab_bar_text(t: Tab) -> Seq<char> {
    match t {
        Tab::Entries => "[Entries]  Daily  Projects  Calendar"@,
        Tab::DailyChart => " Entries  [Daily]  Projects  Calendar"@,
        Tab::ProjectChart => " Entries  Daily  [Projects]  Calendar"@,
        Tab::Calendar => " Entries  Daily  Projects  [Calendar]"@,
    }
}

/// The tab bar for the current tab.
pub fn tab_bar(t: Tab) -> (s: &'static str)
    ensures
        s@ == tab_bar_text(t),
{
    match t {
        Tab::Entries => "[Entries]  Daily  Projects  Calendar",
        Tab::DailyChart => " Entries  [Daily]  Projects  Calendar",
        Tab::ProjectChart => " Entries  Daily  [Projects]  Calendar",
        Tab::Calendar => " Entries  Daily  Projects  [Calendar]",
    }
}

/// The duration shown in the list of entries: from an hour on, the hours
/// with one decimal as the caller printed them, then `h`; else whole
/// minutes.
pub open spec fn list_duration_text(d: int, hours: Seq<char>) -> Seq<char> {
    if d >= 3600 {
        hours + "h"@
    } else {
        int_text(trunc_div(d, 60)) + "m"@
    }
}

/// A line of the list of entries: the name in twenty-five columns, then
/// the duration (zero while running) right-aligned in six.
pub open spec fn entry_label_text(name: Seq<char>, duration: Option<i64>, hours: Seq<char>) -> Seq<char> {
    let d: int = match duration { Some(x) => x as int, None => 0 };
    pad_right(name, 25, ' ') + " "@ + pad_left(list_duration_text(d, hours), 6, ' ')
}

/// The line of an entry in the list of today's entries. `hours` is its
/// duration in hours with one decimal, printed by the caller from the
/// floating-point value; it is shown from an hour on.
pub fn entry_label(name: &str, duration: Option<i64>, hours: &str) -> (s: String)
    ensures
        s@ == entry_label_text(name@, duration, hours@),
{
    let d: i64 = match duration { Some(x) => x, None => 0 };
    let mut dur = String::new();
    if d >= 3600 {
        dur.append(hours);
        dur.append("h");
    } else {
        let q: i128 = if d >= 0 { (d / 60) as i128 } else { -((-(d as i128)) / 60) };
        push_i128(&mut dur, q);
        dur.append("m");
    }
    assert(dur@ =~= list_duration_text(d as int, hours@));
    let mut s = String::new();
    push_padded_right(&mut s, name, 25);
    s.append(" ");
    push_padded_left(&mut s, dur.as_str(), 6);
    assert(s@ =~= entry_label_text(name@, duration, hours@));
    s
}

/// The duration shown in the detail pane: from an hour on, the hours with
/// two decimals as the caller printed them, then `h`; else minutes and
/// seconds.
pub open spec fn detail_duration_text(duration: Option<i64>, hours: Seq<char>) -> Seq<char> {
    let d: int = match duration { Some(x) => x as int, None => 0 };
    if d >= 3600 {
        hours + "h"@
    } else {
        int_text(trunc_div(d, 60)) + "m "@ + int_text(trunc_rem(d, 60)) + "s"@
    }
}

/// The duration of the selected entry in the detail pane. `hours` is the
/// duration in hours with two decimals, printed by the caller from the
/// floating-point value; it is shown from an hour on.
pub fn entry_duration_detail(duration: Option<i64>, hours: &str) -> (s: String)
    ensures
        s@ == detail_duration_text(duration, hours@),
{
    let d: i64 = match duration { Some(x) => x, None => 0 };
    let mut s = String::new();
    if d >= 3600 {
        s.append(hours);
        s.append("h");
    } else {
        let wide = d as i128;
        let q: i128 = if wide >= 0 { wide / 60 } else { -((-wide) / 60) };
        let r: i128 = wide - 60 * q;
        push_i128(&mut s, q);
        s.append("m ");
        push_i128(&mut s, r);
        s.append("s");
    }
    assert(s@ =~= detail_duration_text(duration, hours@));
    s
}

/// Moving one tab right and then one left comes back to the same tab, and
/// four moves in one direction make a full turn.
pub proof fn law_tab_cycle(t: Tab)
    ensures
        prev_tab(next_tab(t)) == t,
        next_tab(prev_tab(t)) == t,
        next_tab(next_tab(next_tab(next_tab(t)))) == t,
{
}

/// Resuming after idleness restores the interrupted task: after going
/// idle, remembering the running task (its name and tags) and coming back,
/// answering the prompt with `y` or `Y` resumes exactly that task, with
/// its name and its tags, and closes the prompt; answering `n`, `N`, `q`
/// or Esc resumes nothing and forgets the task.
pub proof fn law_resume_restores_remembered_task(
    s: TuiState,
    went_idle: Moment,
    came_back: Moment,
    name: String,
    tags: Option<String>,
    key: Key,
)
    ensures
        ({
            let idle = s.after_idle_check(Some(true), went_idle);
            let remembered = TuiState { last_entry_name: Some(name), last_entry_tags: tags, ..idle };
            let back = remembered.after_idle_check(Some(false), came_back);
            &&& back.asking_resume
            &&& (key == Key::Char('y') || key == Key::Char('Y')) ==> {
                &&& back.key_action(key) == TuiAction::Resume { name: name, tags: tags }
                &&& !back.after_key(key, 0).asking_resume
            }
            &&& (key == Key::Char('n') || key == Key::Char('N') || key == Key::Char('q') || key == Key::Esc) ==> {
                &&& back.key_action(key) is Continue
                &&& !back.after_key(key, 0).asking_resume
                &&& back.after_key(key, 0).last_entry_name is None
                &&& back.after_key(key, 0).last_entry_tags is None
            }
        }),
{
}

} // verus!
