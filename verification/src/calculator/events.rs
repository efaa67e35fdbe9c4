//! What each key does to the calculator.

use vstd::prelude::*;
use crate::calculator::state::{
    App, AppEvent, CalcView, can_step_down, dropped, entered, entered_event, popped, recalled,
    rubbed_out, settled, stepped_down, stepped_up, takes, text_of, typed,
};
use crate::keys::{KeyCode, KeyEvent, KeyModifiers};

verus! {

/// The calculator after a key pressed with Control, and what the key
/// did. `c` quits; `l` clears the expression line; `b` and `f` fetch the
/// newest expression of the history; `q` empties the history; `d` drops
/// its newest line; `p` takes the newest line back onto the expression
/// line.
pub open spec fn control_key(s: CalcView, code: KeyCode) -> (CalcView, AppEvent) {
    match code {
        KeyCode::Char(c) => if c == 'c' {
            (s, AppEvent::Quit)
        } else if c == 'l' {
            (CalcView { expression: Seq::empty(), ..s }, AppEvent::Expression)
        } else if c == 'b' {
            (
                recalled(s),
                if s.results.len() > 0 {
                    AppEvent::Expression
                } else {
                    AppEvent::Nothing
                },
            )
        } else if c == 'q' {
            (CalcView { results: Seq::empty(), ..s }, AppEvent::Results)
        } else if c == 'd' {
            (dropped(s), AppEvent::Results)
        } else if c == 'p' {
            (popped(s), AppEvent::ResultsExpression)
        } else if c == 'f' {
            (recalled(s), AppEvent::ResultsExpression)
        } else {
            (s, AppEvent::Nothing)
        },
        _ => (s, AppEvent::Nothing),
    }
}

/// The calculator after a key pressed without Control, and what the key
/// did. `outcome` is the text of the value of the expression line, or
/// `None` if it has no value; only Enter looks at it. A character is
/// typed, unless the tab does not take it; Backspace rubs one out; Tab
/// and BackTab change the tab; Up and Down walk through the history.
pub open spec fn plain_key(s: CalcView, code: KeyCode, outcome: Option<Seq<char>>) -> (
    CalcView,
    AppEvent,
) {
    match code {
        KeyCode::Char(c) => (
            typed(s, c),
            if takes(s, c) {
                AppEvent::Expression
            } else {
                AppEvent::Error
            },
        ),
        KeyCode::Enter => (entered(s, outcome), entered_event(s, outcome)),
        KeyCode::Backspace => (rubbed_out(s), AppEvent::Expression),
        KeyCode::Tab | KeyCode::BackTab => (CalcView { tab: s.tab.other(), ..s }, AppEvent::Tab),
        KeyCode::Up => (stepped_up(s), AppEvent::Expression),
        KeyCode::Down => (stepped_down(s), AppEvent::Expression),
        _ => (s, AppEvent::Nothing),
    }
}

/// The calculator after a key, and what the key did. Keys pressed with
/// any modifier but Shift or Control do nothing.
pub open spec fn key_pressed(s: CalcView, key: KeyEvent, outcome: Option<Seq<char>>) -> (
    CalcView,
    AppEvent,
) {
    let (after, event) = match key.modifiers {
        KeyModifiers::Control => control_key(s, key.code),
        KeyModifiers::Shift | KeyModifiers::Plain => plain_key(s, key.code, outcome),
        KeyModifiers::Other => (s, AppEvent::Nothing),
    };
    (settled(after, event), event)
}

/// The key is one that the calculator can handle in this state. The one
/// key it cannot handle is Down, without Control, when the expression
/// line is further back than the history is long.
pub open spec fn accepts(s: CalcView, key: KeyEvent) -> bool {
    (key.code is Down && (key.modifiers is Plain || key.modifiers is Shift)) ==> can_step_down(s)
}

/// The key asks for the value of the expression line: Enter, without
/// Control, on a line that is not empty.
pub open spec fn wants_value(s: CalcView, key: KeyEvent) -> bool {
    key.code is Enter && (key.modifiers is Plain || key.modifiers is Shift) && s.expression.len()
        > 0
}

/// Whether `do_event` can handle the key in this state.
pub fn accepts_key(app: &App, key_event: &KeyEvent) -> (r: bool)
    ensures
        r == accepts(app@, *key_event),
{
    match key_event.code {
        KeyCode::Down => match key_event.modifiers {
            KeyModifiers::Plain | KeyModifiers::Shift => app.can_step_down(),
            _ => true,
        },
        _ => true,
    }
}

/// Whether `do_event` will look at the value of the expression line.
pub fn needs_value(app: &App, key_event: &KeyEvent) -> (r: bool)
    ensures
        r == wants_value(app@, *key_event),
{
    match key_event.code {
        KeyCode::Enter => match key_event.modifiers {
            KeyModifiers::Plain | KeyModifiers::Shift => app.expression().len() > 0,
            _ => false,
        },
        _ => false,
    }
}

/// Handles a key and reports what it did. `outcome` is the text of the
/// value of the expression line as the current tab computes it, or
/// `None` if the line has no value; it is looked at only if
/// `needs_value` says so.
pub fn do_event(app: &mut App, key_event: &KeyEvent, outcome: Option<String>) -> (event: AppEvent)
    requires
        accepts(old(app)@, *key_event),
    ensures
        (final(app)@, event) == key_pressed(old(app)@, *key_event, text_of(outcome)),
{
    let app_event = match key_event.modifiers {
        KeyModifiers::Control => do_event_key_code_with_control(app, key_event.code),
        KeyModifiers::Shift => do_event_key_code_with_shift(app, key_event.code, outcome),
        KeyModifiers::Plain => do_event_key_code(app, key_event.code, outcome),
        KeyModifiers::Other => AppEvent::Nothing,
    };
    app.settle(app_event);
    app_event
}

fn do_event_key_code_with_shift(app: &mut App, key_code: KeyCode, outcome: Option<String>) -> (event:
    AppEvent)
    requires
        key_code is Down ==> can_step_down(old(app)@),
    ensures
        (final(app)@, event) == plain_key(old(app)@, key_code, text_of(outcome)),
{
    do_event_key_code(app, key_code, outcome)
}

fn do_event_key_code_with_control(app: &mut App, key_code: KeyCode) -> (event: AppEvent)
    ensures
        (final(app)@, event) == control_key(old(app)@, key_code),
{
    match key_code {
        KeyCode::Char(code) => match code {
            'c' => AppEvent::Quit,
            'l' => {
                app.clear_expression();
                AppEvent::Expression
            },
            'b' => {
                if app.recall_newest() {
                    AppEvent::Expression
                } else {
                    AppEvent::Nothing
                }
            },
            'q' => {
                app.clear_results();
                AppEvent::Results
            },
            'd' => {
                app.drop_newest();
                AppEvent::Results
            },
            'p' => {
                app.pop_newest();
                AppEvent::ResultsExpression
            },
            'f' => {
                let _ = app.recall_newest();
                AppEvent::ResultsExpression
            },
            _ => AppEvent::Nothing,
        },
        _ => AppEvent::Nothing,
    }
}

fn do_event_key_code(app: &mut App, key_code: KeyCode, outcome: Option<String>) -> (event: AppEvent)
    requires
        key_code is Down ==> can_step_down(old(app)@),
    ensures
        (final(app)@, event) == plain_key(old(app)@, key_code, text_of(outcome)),
{
    match key_code {
        KeyCode::Char(code) => {
            if app.type_char(code) {
                AppEvent::Expression
            } else {
                AppEvent::Error
            }
        },
        KeyCode::Enter => app.enter(outcome),
        KeyCode::Backspace => {
            app.backspace();
            AppEvent::Expression
        },
        KeyCode::Tab => {
            app.next_tab();
            AppEvent::Tab
        },
        KeyCode::BackTab => {
            app.previous_tab();
            AppEvent::Tab
        },
        KeyCode::Up => {
            app.history_up();
            AppEvent::Expression
        },
        KeyCode::Down => {
            app.history_down();
            AppEvent::Expression
        },
        _ => AppEvent::Nothing,
    }
}

} // verus!
