use tuis::calculator::events::{accepts_key, do_event, needs_value};
use tuis::calculator::layout::{history_window, Heights};
use tuis::calculator::state::{copy_chars, App, AppEvent, TabKind};
use tuis::keys::{KeyCode, KeyEvent, KeyModifiers};

fn plain(code: KeyCode) -> KeyEvent {
    KeyEvent::new(code, KeyModifiers::Plain)
}

fn control(c: char) -> KeyEvent {
    KeyEvent::new(KeyCode::Char(c), KeyModifiers::Control)
}

fn press(app: &mut App, key: KeyEvent) -> AppEvent {
    assert!(accepts_key(app, &key));
    do_event(app, &key, None)
}

fn type_text(app: &mut App, text: &str) {
    for c in text.chars() {
        assert_eq!(press(app, plain(KeyCode::Char(c))), AppEvent::Expression);
    }
}

fn enter(app: &mut App, value: &str) -> AppEvent {
    let key = plain(KeyCode::Enter);
    assert!(needs_value(app, &key));
    do_event(app, &key, Some(value.to_string()))
}

fn line(app: &App) -> String {
    app.expression().iter().collect()
}

fn history(app: &App) -> Vec<(String, String)> {
    let mut lines = vec![];
    for i in 0..app.results_len() {
        let entry = app.result(i).unwrap();
        lines.push((entry.expression.iter().collect(), entry.value.clone()));
    }
    lines
}

fn pair(expression: &str, value: &str) -> (String, String) {
    (expression.to_string(), value.to_string())
}

/// A calculator whose history holds "1+1" and "2*3".
fn with_history() -> App {
    let mut app = App::new();
    type_text(&mut app, "1+1");
    assert_eq!(enter(&mut app, "2"), AppEvent::Enter);
    type_text(&mut app, "2*3");
    assert_eq!(enter(&mut app, "6"), AppEvent::Enter);
    app
}

#[test]
fn a_new_calculator_is_empty() {
    let app = App::new();
    assert_eq!(app.tab(), TabKind::Basic);
    assert_eq!(app.tab_idx(), 0);
    assert_eq!(app.expr_idx(), 0);
    assert_eq!(app.results_len(), 0);
    assert!(app.result(0).is_none());
    assert_eq!(line(&app), "");
    assert!(app.save_expression().is_empty());
    assert!(!app.error());
    assert_eq!(app.last_result(), None);
}

#[test]
fn typing_appends_to_the_line() {
    let mut app = App::new();
    type_text(&mut app, "12.5+x");
    assert_eq!(line(&app), "12.5+x");
    assert_eq!(
        do_event(&mut app, &KeyEvent::new(KeyCode::Char('Y'), KeyModifiers::Shift), None),
        AppEvent::Expression
    );
    assert_eq!(line(&app), "12.5+xY");
}

#[test]
fn the_programming_tab_refuses_the_decimal_point() {
    let mut app = App::new();
    assert_eq!(press(&mut app, plain(KeyCode::Tab)), AppEvent::Tab);
    assert_eq!(app.tab(), TabKind::Programming);
    type_text(&mut app, "12");
    assert_eq!(press(&mut app, plain(KeyCode::Char('.'))), AppEvent::Error);
    assert_eq!(line(&app), "12");
    assert!(!app.error());
    type_text(&mut app, "3");
    assert_eq!(line(&app), "123");
}

#[test]
fn backspace_rubs_out_the_last_character() {
    let mut app = App::new();
    type_text(&mut app, "abc");
    assert_eq!(press(&mut app, plain(KeyCode::Backspace)), AppEvent::Expression);
    assert_eq!(line(&app), "ab");
    press(&mut app, plain(KeyCode::Backspace));
    press(&mut app, plain(KeyCode::Backspace));
    assert_eq!(line(&app), "");
    assert_eq!(press(&mut app, plain(KeyCode::Backspace)), AppEvent::Expression);
    assert_eq!(line(&app), "");
}

#[test]
fn tab_keys_switch_between_the_two_tabs() {
    let mut app = App::new();
    assert_eq!(press(&mut app, plain(KeyCode::BackTab)), AppEvent::Tab);
    assert_eq!(app.tab_idx(), 1);
    assert_eq!(press(&mut app, plain(KeyCode::BackTab)), AppEvent::Tab);
    assert_eq!(app.tab_idx(), 0);
    assert_eq!(press(&mut app, plain(KeyCode::Tab)), AppEvent::Tab);
    assert_eq!(app.tab_idx(), 1);
    assert_eq!(press(&mut app, plain(KeyCode::Tab)), AppEvent::Tab);
    assert_eq!(app.tab_idx(), 0);
}

#[test]
fn tab_kinds() {
    assert_eq!(TabKind::Basic.index(), 0);
    assert_eq!(TabKind::Programming.index(), 1);
    assert_eq!(TabKind::Basic.title(), "basic");
    assert_eq!(TabKind::Programming.title(), "program");
    assert_eq!(TabKind::Basic.next(), TabKind::Programming);
    assert_eq!(TabKind::Programming.next(), TabKind::Basic);
    assert_eq!(TabKind::Basic.previous(), TabKind::Programming);
    assert_eq!(TabKind::Programming.previous(), TabKind::Basic);
}

#[test]
fn enter_on_an_empty_line_does_nothing() {
    let mut app = App::new();
    let key = plain(KeyCode::Enter);
    assert!(!needs_value(&app, &key));
    assert_eq!(do_event(&mut app, &key, Some("7".to_string())), AppEvent::Nothing);
    assert_eq!(do_event(&mut app, &key, None), AppEvent::Nothing);
    assert_eq!(app.results_len(), 0);
    assert!(!app.error());
}

#[test]
fn enter_moves_the_line_into_the_history() {
    let app = with_history();
    assert_eq!(history(&app), vec![pair("1+1", "2"), pair("2*3", "6")]);
    assert_eq!(line(&app), "");
    assert!(!app.error());
    assert_eq!(app.expr_idx(), 0);
}

#[test]
fn enter_without_a_value_raises_the_error_flag() {
    let mut app = App::new();
    type_text(&mut app, "1+");
    assert_eq!(press(&mut app, plain(KeyCode::Enter)), AppEvent::Error);
    assert!(app.error());
    assert_eq!(line(&app), "1+");
    assert_eq!(app.results_len(), 0);
    assert_eq!(press(&mut app, plain(KeyCode::Enter)), AppEvent::Error);
    assert!(app.error());
}

#[test]
fn the_error_flag_comes_down_with_the_next_thing_done() {
    let mut app = App::new();
    type_text(&mut app, "1+");
    press(&mut app, plain(KeyCode::Enter));
    assert!(app.error());
    assert_eq!(press(&mut app, plain(KeyCode::Other)), AppEvent::Nothing);
    assert!(app.error());
    assert_eq!(
        do_event(&mut app, &KeyEvent::new(KeyCode::Char('1'), KeyModifiers::Other), None),
        AppEvent::Nothing
    );
    assert!(app.error());
    assert_eq!(press(&mut app, plain(KeyCode::Char('1'))), AppEvent::Expression);
    assert!(!app.error());
    assert_eq!(line(&app), "1+1");

    press(&mut app, plain(KeyCode::Backspace));
    press(&mut app, plain(KeyCode::Enter));
    assert!(app.error());
    assert_eq!(press(&mut app, plain(KeyCode::Tab)), AppEvent::Tab);
    assert!(!app.error());

    press(&mut app, plain(KeyCode::Enter));
    assert!(app.error());
    assert_eq!(press(&mut app, control('c')), AppEvent::Quit);
    assert!(!app.error());
}

#[test]
fn a_refused_character_keeps_the_error_flag() {
    let mut app = App::new();
    press(&mut app, plain(KeyCode::Tab));
    type_text(&mut app, "1+");
    press(&mut app, plain(KeyCode::Enter));
    assert!(app.error());
    assert_eq!(press(&mut app, plain(KeyCode::Char('.'))), AppEvent::Error);
    assert!(app.error());
}

#[test]
fn control_c_quits() {
    let mut app = with_history();
    type_text(&mut app, "9");
    assert_eq!(press(&mut app, control('c')), AppEvent::Quit);
    assert_eq!(line(&app), "9");
    assert_eq!(app.results_len(), 2);
}

#[test]
fn control_l_clears_the_line() {
    let mut app = with_history();
    type_text(&mut app, "9+9");
    assert_eq!(press(&mut app, control('l')), AppEvent::Expression);
    assert_eq!(line(&app), "");
    assert_eq!(app.results_len(), 2);
}

#[test]
fn control_b_fetches_the_newest_expression() {
    let mut app = with_history();
    type_text(&mut app, "9");
    assert_eq!(press(&mut app, control('b')), AppEvent::Expression);
    assert_eq!(line(&app), "2*3");
    assert_eq!(app.results_len(), 2);

    let mut app = App::new();
    type_text(&mut app, "9");
    assert_eq!(press(&mut app, control('b')), AppEvent::Nothing);
    assert_eq!(line(&app), "9");
}

#[test]
fn control_f_fetches_the_newest_expression() {
    let mut app = with_history();
    assert_eq!(press(&mut app, control('f')), AppEvent::ResultsExpression);
    assert_eq!(line(&app), "2*3");
    assert_eq!(history(&app), vec![pair("1+1", "2"), pair("2*3", "6")]);

    let mut app = App::new();
    type_text(&mut app, "9");
    assert_eq!(press(&mut app, control('f')), AppEvent::ResultsExpression);
    assert_eq!(line(&app), "9");
}

#[test]
fn control_q_empties_the_history() {
    let mut app = with_history();
    type_text(&mut app, "9");
    assert_eq!(press(&mut app, control('q')), AppEvent::Results);
    assert_eq!(app.results_len(), 0);
    assert_eq!(line(&app), "9");
}

#[test]
fn control_d_drops_the_newest_line() {
    let mut app = with_history();
    assert_eq!(press(&mut app, control('d')), AppEvent::Results);
    assert_eq!(history(&app), vec![pair("1+1", "2")]);
    assert_eq!(press(&mut app, control('d')), AppEvent::Results);
    assert_eq!(app.results_len(), 0);
    assert_eq!(press(&mut app, control('d')), AppEvent::Results);
    assert_eq!(app.results_len(), 0);
}

#[test]
fn control_p_takes_the_newest_line_back() {
    let mut app = with_history();
    type_text(&mut app, "9");
    assert_eq!(press(&mut app, control('p')), AppEvent::ResultsExpression);
    assert_eq!(line(&app), "2*3");
    assert_eq!(history(&app), vec![pair("1+1", "2")]);
    assert_eq!(press(&mut app, control('p')), AppEvent::ResultsExpression);
    assert_eq!(line(&app), "1+1");
    assert_eq!(app.results_len(), 0);
    assert_eq!(press(&mut app, control('p')), AppEvent::ResultsExpression);
    assert_eq!(line(&app), "1+1");
}

#[test]
fn other_control_keys_do_nothing() {
    let mut app = with_history();
    type_text(&mut app, "9");
    assert_eq!(press(&mut app, control('x')), AppEvent::Nothing);
    assert_eq!(press(&mut app, KeyEvent::new(KeyCode::Enter, KeyModifiers::Control)),
        AppEvent::Nothing);
    assert_eq!(press(&mut app, KeyEvent::new(KeyCode::Down, KeyModifiers::Control)),
        AppEvent::Nothing);
    assert_eq!(line(&app), "9");
    assert_eq!(app.results_len(), 2);
}

#[test]
fn up_and_down_walk_through_the_history() {
    let mut app = with_history();
    type_text(&mut app, "typing");
    assert_eq!(press(&mut app, plain(KeyCode::Up)), AppEvent::Expression);
    assert_eq!(line(&app), "2*3");
    assert_eq!(app.expr_idx(), 1);
    assert_eq!(app.save_expression().iter().collect::<String>(), "typing");
    assert_eq!(press(&mut app, plain(KeyCode::Up)), AppEvent::Expression);
    assert_eq!(line(&app), "1+1");
    assert_eq!(app.expr_idx(), 2);
    assert_eq!(press(&mut app, plain(KeyCode::Up)), AppEvent::Expression);
    assert_eq!(line(&app), "1+1");
    assert_eq!(app.expr_idx(), 2);
    assert_eq!(press(&mut app, plain(KeyCode::Down)), AppEvent::Expression);
    assert_eq!(line(&app), "2*3");
    assert_eq!(app.expr_idx(), 1);
    assert_eq!(press(&mut app, plain(KeyCode::Down)), AppEvent::Expression);
    assert_eq!(line(&app), "typing");
    assert_eq!(app.expr_idx(), 0);
    assert_eq!(press(&mut app, plain(KeyCode::Down)), AppEvent::Expression);
    assert_eq!(line(&app), "typing");
    assert_eq!(app.expr_idx(), 0);
}

#[test]
fn up_in_an_empty_history_keeps_the_line() {
    let mut app = App::new();
    type_text(&mut app, "7");
    assert_eq!(press(&mut app, plain(KeyCode::Up)), AppEvent::Expression);
    assert_eq!(line(&app), "7");
    assert_eq!(app.expr_idx(), 0);
}

#[test]
fn down_is_refused_when_the_history_has_shrunk_too_far() {
    let mut app = with_history();
    press(&mut app, plain(KeyCode::Up));
    press(&mut app, plain(KeyCode::Up));
    assert_eq!(app.expr_idx(), 2);
    press(&mut app, control('d'));
    assert!(accepts_key(&app, &plain(KeyCode::Down)));
    press(&mut app, control('d'));
    assert_eq!(app.results_len(), 0);
    assert!(!accepts_key(&app, &plain(KeyCode::Down)));
    assert!(!accepts_key(&app, &KeyEvent::new(KeyCode::Down, KeyModifiers::Shift)));
    assert!(accepts_key(&app, &KeyEvent::new(KeyCode::Down, KeyModifiers::Control)));
    assert!(accepts_key(&app, &plain(KeyCode::Up)));
    assert!(!app.can_step_down());
}

#[test]
fn down_after_the_history_shrank_by_one_shows_what_is_left() {
    let mut app = with_history();
    press(&mut app, plain(KeyCode::Up));
    press(&mut app, plain(KeyCode::Up));
    press(&mut app, control('d'));
    assert_eq!(history(&app), vec![pair("1+1", "2")]);
    assert_eq!(press(&mut app, plain(KeyCode::Down)), AppEvent::Expression);
    assert_eq!(app.expr_idx(), 1);
    assert_eq!(line(&app), "1+1");
}

#[test]
fn last_result_follows_the_programming_tab() {
    let mut app = App::new();
    type_text(&mut app, "255");
    app.update_last_result(Some(255));
    assert_eq!(app.last_result(), None);
    press(&mut app, plain(KeyCode::Tab));
    app.update_last_result(Some(255));
    assert_eq!(app.last_result(), Some(255));
    type_text(&mut app, "+");
    app.update_last_result(None);
    assert_eq!(app.last_result(), Some(255));
    press(&mut app, plain(KeyCode::Tab));
    app.update_last_result(Some(1));
    assert_eq!(app.last_result(), Some(255));
    press(&mut app, control('l'));
    app.update_last_result(Some(1));
    assert_eq!(app.last_result(), None);
}

#[test]
fn copy_chars_copies() {
    let text: Vec<char> = "3 × (4 + 5)".chars().collect();
    assert_eq!(copy_chars(&text), text);
    assert_eq!(copy_chars(&vec![]), Vec::<char>::new());
}

#[test]
fn standard_heights() {
    let heights = Heights::standard();
    assert_eq!(heights.tab(), 3);
    assert_eq!(heights.expression(), 5);
    assert_eq!(heights.arithmetic(), 6);
}

#[test]
fn heights_divide_the_screen() {
    let heights = Heights::standard();
    assert_eq!(heights.body_height(24), Some(21));
    assert_eq!(heights.body_height(3), Some(0));
    assert_eq!(heights.body_height(2), None);
    assert_eq!(heights.results_height(21, TabKind::Basic), Some(16));
    assert_eq!(heights.results_height(21, TabKind::Programming), Some(10));
    assert_eq!(heights.results_height(5, TabKind::Basic), Some(0));
    assert_eq!(heights.results_height(4, TabKind::Basic), None);
    assert_eq!(heights.results_height(11, TabKind::Programming), Some(0));
    assert_eq!(heights.results_height(10, TabKind::Programming), None);
}

#[test]
fn history_window_shows_the_newest_lines() {
    assert_eq!(history_window(10, 4), (6, 0));
    assert_eq!(history_window(4, 4), (0, 0));
    assert_eq!(history_window(3, 4), (0, 1));
    assert_eq!(history_window(0, 4), (0, 4));
    assert_eq!(history_window(5, 0), (5, 0));
    assert_eq!(history_window(0, 0), (0, 0));
}
