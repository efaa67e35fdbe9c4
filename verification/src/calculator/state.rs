//! The calculator's state and the small steps that change it.

use std::collections::VecDeque;
use vstd::prelude::*;

verus! {

/// What a key press did, so that the caller knows what to redraw.
#[derive(Debug, Clone, Copy, PartialEq, Eq)]
pub enum AppEvent {
    Nothing,
    Expression,
    Results,
    ResultsExpression,
    Enter,
    Tab,
    Error,
    Quit,
}

/// The two tabs: plain arithmetic, and integers for programmers.
#[derive(Debug, Clone, Copy, PartialEq, Eq)]
pub enum TabKind {
    Basic,
    Programming,
}

impl TabKind {
    /// The position of the tab, from the left.
    pub open spec fn spec_index(self) -> int {
        match self {
            TabKind::Basic => 0,
            TabKind::Programming => 1,
        }
    }

    /// The other tab. With two tabs, the next and the previous one are
    /// the same.
    pub open spec fn other(self) -> TabKind {
        match self {
            TabKind::Basic => TabKind::Programming,
            TabKind::Programming => TabKind::Basic,
        }
    }

    pub fn index(&self) -> (r: usize)
        ensures
            r == self.spec_index(),
    {
        match self {
            TabKind::Basic => 0,
            TabKind::Programming => 1,
        }
    }

    /// The title shown for the tab.
    pub fn title(&self) -> (r: &'static str)
        ensures
            r@ == match self {
                TabKind::Basic => "basic"@,
                TabKind::Programming => "program"@,
            },
    {
        match self {
            TabKind::Basic => "basic",
            TabKind::Programming => "program",
        }
    }

    /// The tab to the right, wrapping around.
    pub fn next(&self) -> (r: TabKind)
        ensures
            r == self.other(),
            r.spec_index() == (self.spec_index() + 1) % 2,
    {
        match self {
            TabKind::Basic => TabKind::Programming,
            TabKind::Programming => TabKind::Basic,
        }
    }

    /// The tab to the left, wrapping around.
    pub fn previous(&self) -> (r: TabKind)
        ensures
            r == self.other(),
            r.spec_index() == (self.spec_index() + 2 - 1) % 2,
    {
        match self {
            TabKind::Basic => TabKind::Programming,
            TabKind::Programming => TabKind::Basic,
        }
    }
}

/// One line of the history: an expression and the text of its value.
#[derive(Debug)]
pub struct Entry {
    pub expression: Vec<char>,
    pub value: String,
}

/// A line of the history as a mathematical value.
pub struct EntryView {
    pub expression: Seq<char>,
    pub value: Seq<char>,
}

impl View for Entry {
    type V = EntryView;

    open spec fn view(&self) -> EntryView {
        EntryView { expression: self.expression@, value: self.value@ }
    }
}

/// The calculator as a mathematical value.
pub struct CalcView {
    pub tab: TabKind,
    /// How far back in the history the expression line has gone; zero
    /// while it shows what is being typed.
    pub expr_idx: int,
    /// The history, oldest line first.
    pub results: Seq<EntryView>,
    /// What was being typed when the expression line went back into
    /// the history.
    pub save_expression: Seq<char>,
    pub expression: Seq<char>,
    pub error: bool,
    /// The integer value last found for the expression line in the
    /// programming tab, shown there in several bases.
    pub last_result: Option<i64>,
}

/// The calculator at start: first tab, nothing typed, no history.
pub open spec fn initial() -> CalcView {
    CalcView {
        tab: TabKind::Basic,
        expr_idx: 0,
        results: Seq::empty(),
        save_expression: Seq::empty(),
        expression: Seq::empty(),
        error: false,
        last_result: None,
    }
}

/// The views of the lines of a history.
pub open spec fn entry_views(entries: Seq<Entry>) -> Seq<EntryView> {
    Seq::new(entries.len(), |i: int| entries[i]@)
}

/// The calculator.
#[derive(Debug)]
pub struct App {
    pub(crate) tab: TabKind,
    pub(crate) expr_idx: usize,
    pub(crate) results: VecDeque<Entry>,
    pub(crate) save_expression: Vec<char>,
    pub(crate) expression: Vec<char>,
    pub(crate) error: bool,
    pub(crate) last_result: Option<i64>,
}

impl View for App {
    type V = CalcView;

    closed spec fn view(&self) -> CalcView {
        CalcView {
            tab: self.tab,
            expr_idx: self.expr_idx as int,
            results: entry_views(self.results@),
            save_expression: self.save_expression@,
            expression: self.expression@,
            error: self.error,
            last_result: self.last_result,
        }
    }
}

/// A copy of `text`.
pub fn copy_chars(text: &Vec<char>) -> (copy: Vec<char>)
    ensures
        copy@ == text@,
{
    let mut copy: Vec<char> = Vec::new();
    let mut i: usize = 0;
    while i < text.len()
        invariant
            i <= text.len(),
            copy@ == text@.take(i as int),
        decreases text.len() - i,
    {
        copy.push(text[i]);
        i += 1;
    }
    copy
}

/// The calculator after the expression line was evaluated as an
/// integer, with `value` the result if there is one: an empty line
/// has no last result; in the programming tab a result replaces the
/// last one; otherwise the last result stays.
pub open spec fn refreshed(s: CalcView, value: Option<i64>) -> CalcView {
    if s.expression.len() == 0 {
        CalcView { last_result: None, ..s }
    } else if s.tab == TabKind::Programming && value is Some {
        CalcView { last_result: value, ..s }
    } else {
        s
    }
}

/// The expression of the newest line of a history that has one.
pub open spec fn newest(s: CalcView) -> Seq<char> {
    s.results[s.results.len() - 1].expression
}

/// The calculator with the newest line's expression on the expression
/// line; unchanged if the history is empty.
pub open spec fn recalled(s: CalcView) -> CalcView {
    if s.results.len() > 0 {
        CalcView { expression: newest(s), ..s }
    } else {
        s
    }
}

/// The calculator without the newest line of its history; unchanged if
/// the history is empty.
pub open spec fn dropped(s: CalcView) -> CalcView {
    if s.results.len() > 0 {
        CalcView { results: s.results.drop_last(), ..s }
    } else {
        s
    }
}

/// The calculator with the newest line taken out of the history and its
/// expression put on the expression line; unchanged if the history is
/// empty.
pub open spec fn popped(s: CalcView) -> CalcView {
    if s.results.len() > 0 {
        CalcView { expression: newest(s), results: s.results.drop_last(), ..s }
    } else {
        s
    }
}

/// Whether the current tab takes `c` in an expression: the programming
/// tab has no use for the decimal point.
pub open spec fn takes(s: CalcView, c: char) -> bool {
    !(s.tab == TabKind::Programming && c == '.')
}

/// The calculator after `c` was typed.
pub open spec fn typed(s: CalcView, c: char) -> CalcView {
    if takes(s, c) {
        CalcView { expression: s.expression.push(c), ..s }
    } else {
        s
    }
}

/// The calculator after the last character was rubbed out.
pub open spec fn rubbed_out(s: CalcView) -> CalcView {
    if s.expression.len() > 0 {
        CalcView { expression: s.expression.drop_last(), ..s }
    } else {
        s
    }
}

/// The calculator after Enter, with `outcome` the text of the value of
/// the expression line, or `None` if it has no value. An empty line is
/// left alone. A value goes into the history with its expression, and
/// the line is cleared. A line without a value raises the error flag.
pub open spec fn entered(s: CalcView, outcome: Option<Seq<char>>) -> CalcView {
    if s.expression.len() == 0 {
        s
    } else {
        match outcome {
            Some(value) => CalcView {
                results: s.results.push(EntryView { expression: s.expression, value }),
                expression: Seq::empty(),
                ..s
            },
            None => CalcView { error: true, ..s },
        }
    }
}

/// What Enter reports.
pub open spec fn entered_event(s: CalcView, outcome: Option<Seq<char>>) -> AppEvent {
    if s.expression.len() == 0 {
        AppEvent::Nothing
    } else if outcome is Some {
        AppEvent::Enter
    } else {
        AppEvent::Error
    }
}

/// The calculator after a step back in the history: the expression line
/// shows the line before the one it showed. The first step puts aside
/// what was being typed. At the oldest line nothing changes.
pub open spec fn stepped_up(s: CalcView) -> CalcView {
    if 0 <= s.expr_idx < s.results.len() {
        CalcView {
            save_expression: if s.expr_idx == 0 {
                s.expression
            } else {
                s.save_expression
            },
            expr_idx: s.expr_idx + 1,
            expression: s.results[s.results.len() - (s.expr_idx + 1)].expression,
            ..s
        }
    } else {
        s
    }
}

/// A step forward in the history is possible: the line it would show
/// exists.
pub open spec fn can_step_down(s: CalcView) -> bool {
    s.expr_idx <= s.results.len() + 1
}

/// The calculator after a step forward in the history: the expression
/// line shows the line after the one it showed, and at the end what was
/// put aside. Nothing changes if the line shows what is being typed.
pub open spec fn stepped_down(s: CalcView) -> CalcView {
    if s.expr_idx > 0 {
        CalcView {
            expr_idx: s.expr_idx - 1,
            expression: if s.expr_idx == 1 {
                s.save_expression
            } else {
                s.results[s.results.len() - (s.expr_idx - 1)].expression
            },
            ..s
        }
    } else {
        s
    }
}

/// The calculator once a key has been dealt with: anything that
/// happened, other than an error, takes the error flag down.
pub open spec fn settled(s: CalcView, event: AppEvent) -> CalcView {
    if s.error && event != AppEvent::Nothing && event != AppEvent::Error {
        CalcView { error: false, ..s }
    } else {
        s
    }
}

/// The text, if any.
pub open spec fn text_of(outcome: Option<String>) -> Option<Seq<char>> {
    match outcome {
        Some(text) => Some(text@),
        None => None,
    }
}

impl App {
    /// Clears the expression line.
    pub fn clear_expression(&mut self)
        ensures
            final(self)@ == (CalcView { expression: Seq::empty(), ..old(self)@ }),
    {
        self.expression.clear();
    }

    /// Puts the expression of the newest line of the history on the
    /// expression line, and says whether there was one.
    pub fn recall_newest(&mut self) -> (found: bool)
        ensures
            found == (old(self)@.results.len() > 0),
            final(self)@ == recalled(old(self)@),
    {
        let n = self.results.len();
        if n > 0 {
            self.expression = copy_chars(&self.results[n - 1].expression);
            true
        } else {
            false
        }
    }

    /// Empties the history.
    pub fn clear_results(&mut self)
        ensures
            final(self)@ == (CalcView { results: Seq::empty(), ..old(self)@ }),
    {
        self.results.clear();
        assert(entry_views(self.results@) =~= Seq::empty());
    }

    /// Drops the newest line of the history.
    pub fn drop_newest(&mut self)
        ensures
            final(self)@ == dropped(old(self)@),
    {
        let ghost before = self.results@;
        let _ = self.results.pop_back();
        assert(entry_views(self.results@) =~= if before.len() > 0 {
            entry_views(before).drop_last()
        } else {
            entry_views(before)
        });
    }

    /// Takes the newest line out of the history and puts its expression
    /// on the expression line.
    pub fn pop_newest(&mut self)
        ensures
            final(self)@ == popped(old(self)@),
    {
        let ghost before = self.results@;
        if let Some(entry) = self.results.pop_back() {
            self.expression = entry.expression;
            assert(entry_views(self.results@) =~= entry_views(before).drop_last());
        }
    }

    /// Types `c` at the end of the expression line, and says whether the
    /// current tab took it.
    pub fn type_char(&mut self, c: char) -> (taken: bool)
        ensures
            taken == takes(old(self)@, c),
            final(self)@ == typed(old(self)@, c),
    {
        if let TabKind::Programming = self.tab {
            if c == '.' {
                return false;
            }
        }
        self.expression.push(c);
        true
    }

    /// Rubs out the last character of the expression line.
    pub fn backspace(&mut self)
        ensures
            final(self)@ == rubbed_out(old(self)@),
    {
        let ghost before = self.expression@;
        let _ = self.expression.pop();
        assert(self.expression@ =~= if before.len() > 0 {
            before.drop_last()
        } else {
            before
        });
    }

    /// Handles Enter, given the text of the value of the expression
    /// line, or `None` if the line has no value.
    pub fn enter(&mut self, outcome: Option<String>) -> (event: AppEvent)
        ensures
            final(self)@ == entered(old(self)@, text_of(outcome)),
            event == entered_event(old(self)@, text_of(outcome)),
    {
        if self.expression.len() == 0 {
            return AppEvent::Nothing;
        }
        match outcome {
            Some(value) => {
                let ghost before = self.results@;
                let entry = Entry { expression: copy_chars(&self.expression), value };
                let ghost line = entry@;
                self.results.push_back(entry);
                self.expression.clear();
                assert(entry_views(self.results@) =~= entry_views(before).push(line));
                AppEvent::Enter
            },
            None => {
                self.error = true;
                AppEvent::Error
            },
        }
    }

    /// Goes to the tab on the right.
    pub fn next_tab(&mut self)
        ensures
            final(self)@ == (CalcView { tab: old(self)@.tab.other(), ..old(self)@ }),
    {
        self.tab = self.tab.next();
    }

    /// Goes to the tab on the left.
    pub fn previous_tab(&mut self)
        ensures
            final(self)@ == (CalcView { tab: old(self)@.tab.other(), ..old(self)@ }),
    {
        self.tab = self.tab.previous();
    }

    /// Steps back in the history.
    pub fn history_up(&mut self)
        ensures
            final(self)@ == stepped_up(old(self)@),
    {
        let result_len = self.results.len();
        if self.expr_idx < result_len {
            if self.expr_idx == 0 {
                self.save_expression = copy_chars(&self.expression);
            }
            self.expr_idx += 1;
            self.expression = copy_chars(&self.results[result_len - self.expr_idx].expression);
        }
    }

    /// Whether a step forward in the history is possible.
    pub fn can_step_down(&self) -> (r: bool)
        ensures
            r == can_step_down(self@),
    {
        self.expr_idx <= self.results.len() || self.expr_idx - 1 == self.results.len()
    }

    /// Steps forward in the history.
    pub fn history_down(&mut self)
        requires
            can_step_down(old(self)@),
        ensures
            final(self)@ == stepped_down(old(self)@),
    {
        let result_len = self.results.len();
        if self.expr_idx > 0 {
            self.expr_idx -= 1;
            if self.expr_idx == 0 {
                self.expression = copy_chars(&self.save_expression);
            } else {
                self.expression = copy_chars(&self.results[result_len - self.expr_idx].expression);
            }
        }
    }

    /// Takes the error flag down after anything but an error.
    pub fn settle(&mut self, event: AppEvent)
        ensures
            final(self)@ == settled(old(self)@, event),
    {
        if self.error {
            match event {
                AppEvent::Nothing | AppEvent::Error => {},
                _ => {
                    self.error = false;
                },
            }
        }
    }

    pub fn new() -> (app: App)
        ensures
            app@ == initial(),
    {
        let app = App {
            tab: TabKind::Basic,
            expr_idx: 0,
            results: VecDeque::new(),
            save_expression: Vec::new(),
            expression: Vec::new(),
            error: false,
            last_result: None,
        };
        assert(app@.results =~= Seq::empty());
        app
    }

    pub fn tab(&self) -> (r: TabKind)
        ensures
            r == self@.tab,
    {
        self.tab
    }

    /// The position of the current tab, from the left.
    pub fn tab_idx(&self) -> (r: usize)
        ensures
            r == self@.tab.spec_index(),
    {
        self.tab.index()
    }

    pub fn expr_idx(&self) -> (r: usize)
        ensures
            r == self@.expr_idx,
    {
        self.expr_idx
    }

    /// The expression line.
    pub fn expression(&self) -> (r: &Vec<char>)
        ensures
            r@ == self@.expression,
    {
        &self.expression
    }

    pub fn save_expression(&self) -> (r: &Vec<char>)
        ensures
            r@ == self@.save_expression,
    {
        &self.save_expression
    }

    /// Whether the last evaluation failed and nothing has been done since.
    pub fn error(&self) -> (r: bool)
        ensures
            r == self@.error,
    {
        self.error
    }

    pub fn last_result(&self) -> (r: Option<i64>)
        ensures
            r == self@.last_result,
    {
        self.last_result
    }

    /// The number of lines in the history.
    pub fn results_len(&self) -> (r: usize)
        ensures
            r == self@.results.len(),
    {
        self.results.len()
    }

    /// Line `i` of the history, the oldest being line zero.
    pub fn result(&self, i: usize) -> (r: Option<&Entry>)
        ensures
            match r {
                Some(e) => i < self@.results.len() && e@ == self@.results[i as int],
                None => i >= self@.results.len(),
            },
    {
        if i < self.results.len() {
            Some(&self.results[i])
        } else {
            None
        }
    }

    /// Takes in the integer value of the expression line, for display
    /// under the line in the programming tab. `value` is `None` if the
    /// line has no integer value.
    ///
    /// An empty line has no last result. In the programming tab a value
    /// replaces the last result. Otherwise the last result stays.
    pub fn update_last_result(&mut self, value: Option<i64>)
        ensures
            final(self)@ == refreshed(old(self)@, value),
    {
        if self.expression.len() == 0 {
            self.last_result = None;
        } else {
            match self.tab {
                TabKind::Programming => {
                    if let Some(v) = value {
                        self.last_result = Some(v);
                    }
                },
                TabKind::Basic => {},
            }
        }
    }
}

} // verus!
