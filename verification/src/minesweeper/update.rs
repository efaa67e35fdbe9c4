//! What each key does to the game.

use vstd::prelude::*;
use crate::keys::{KeyCode, KeyEvent, KeyModifiers};
use crate::minesweeper::app::{
    App, AppView, cell_uncovered, cover_changed, cursor_moved, menu_moved, quitting, started,
    to_menu,
};
use crate::minesweeper::menu::Movement;

verus! {

/// The key starts a round from the menu: Enter or `c`.
pub open spec fn starts_round(key: KeyEvent) -> bool {
    key.code == KeyCode::Enter || key.code == KeyCode::Char('c')
}

/// The menu after any key but those that start a round. Escape and `q`
/// quit; the arrows, or `h`, `j`, `k`, `l`, move the highlight.
pub open spec fn after_menu_key(s: AppView, key: KeyEvent) -> AppView {
    match key.code {
        KeyCode::Esc => quitting(s),
        KeyCode::Up => menu_moved(s, Movement::Up),
        KeyCode::Down => menu_moved(s, Movement::Down),
        KeyCode::Left => menu_moved(s, Movement::Left),
        KeyCode::Right => menu_moved(s, Movement::Right),
        KeyCode::Char(c) => if c == 'q' {
            quitting(s)
        } else if c == 'k' {
            menu_moved(s, Movement::Up)
        } else if c == 'j' {
            menu_moved(s, Movement::Down)
        } else if c == 'h' {
            menu_moved(s, Movement::Left)
        } else if c == 'l' {
            menu_moved(s, Movement::Right)
        } else {
            s
        },
        _ => s,
    }
}

/// The game after a key pressed once the round has ended: Escape and
/// `q` quit, Enter leads back to the menu.
pub open spec fn after_over_key(s: AppView, key: KeyEvent) -> AppView {
    match key.code {
        KeyCode::Esc => quitting(s),
        KeyCode::Enter => to_menu(s),
        KeyCode::Char(c) => if c == 'q' {
            quitting(s)
        } else {
            s
        },
        _ => s,
    }
}

/// The game after a key pressed outside the menu. Once the round has
/// ended the keys of `after_over_key` apply. Before that: Escape, `q`
/// and Control-`c` quit; `c` without a modifier and Enter open the cell
/// under the cursor; the arrows, or `h`, `j`, `k`, `l`, move the cursor;
/// space and `f` mark the cell.
pub open spec fn after_game_key(s: AppView, key: KeyEvent) -> AppView {
    if s.phase is Over {
        after_over_key(s, key)
    } else {
        match key.code {
            KeyCode::Esc => quitting(s),
            KeyCode::Up => cursor_moved(s, Movement::Up),
            KeyCode::Down => cursor_moved(s, Movement::Down),
            KeyCode::Left => cursor_moved(s, Movement::Left),
            KeyCode::Right => cursor_moved(s, Movement::Right),
            KeyCode::Enter => cell_uncovered(s),
            KeyCode::Char(c) => if c == 'q' {
                quitting(s)
            } else if c == 'c' || c == 'C' {
                match key.modifiers {
                    KeyModifiers::Control => quitting(s),
                    KeyModifiers::Plain => cell_uncovered(s),
                    _ => s,
                }
            } else if c == 'k' {
                cursor_moved(s, Movement::Up)
            } else if c == 'j' {
                cursor_moved(s, Movement::Down)
            } else if c == 'h' {
                cursor_moved(s, Movement::Left)
            } else if c == 'l' {
                cursor_moved(s, Movement::Right)
            } else if c == ' ' || c == 'f' {
                cover_changed(s)
            } else {
                s
            },
            _ => s,
        }
    }
}

/// Handles a key: by the menu's rules while the menu is shown, by the
/// round's rules otherwise.
pub fn update(app: &mut App, key_event: KeyEvent)
    requires
        old(app).wf(),
    ensures
        final(app).wf(),
        if old(app)@.phase is Menu {
            if starts_round(key_event) {
                started(
                    old(app)@,
                    final(app)@,
                    old(app)@.menu_map_size.spec_map_size().0,
                    old(app)@.menu_map_size.spec_map_size().1,
                    old(app)@.menu_game_level.spec_bomb_cnt(old(app)@.menu_map_size),
                )
            } else {
                final(app)@ == after_menu_key(old(app)@, key_event)
            }
        } else {
            final(app)@ == after_game_key(old(app)@, key_event)
        },
{
    if app.menu() {
        update_menu(app, key_event);
        return ;
    }
    update_game(app, key_event);
}

/// Handles a key in the menu.
pub fn update_menu(app: &mut App, key_event: KeyEvent)
    requires
        old(app).wf(),
    ensures
        final(app).wf(),
        if starts_round(key_event) {
            started(
                old(app)@,
                final(app)@,
                old(app)@.menu_map_size.spec_map_size().0,
                old(app)@.menu_map_size.spec_map_size().1,
                old(app)@.menu_game_level.spec_bomb_cnt(old(app)@.menu_map_size),
            )
        } else {
            final(app)@ == after_menu_key(old(app)@, key_event)
        },
{
    match key_event.code {
        KeyCode::Esc | KeyCode::Char('q') => app.quit(),
        KeyCode::Up | KeyCode::Char('k') => app.menu_move(Movement::Up),
        KeyCode::Down | KeyCode::Char('j') => app.menu_move(Movement::Down),
        KeyCode::Left | KeyCode::Char('h') => app.menu_move(Movement::Left),
        KeyCode::Right | KeyCode::Char('l') => app.menu_move(Movement::Right),
        KeyCode::Enter | KeyCode::Char('c') => app.start_selected(),
        _ => {},
    }
}

/// Handles a key outside the menu.
pub fn update_game(app: &mut App, key_event: KeyEvent)
    requires
        old(app).wf(),
    ensures
        final(app).wf(),
        final(app)@ == after_game_key(old(app)@, key_event),
{
    if app.over() {
        update_over(app, key_event);
        return ;
    }
    match key_event.code {
        KeyCode::Esc | KeyCode::Char('q') => app.quit(),
        KeyCode::Char('c') | KeyCode::Char('C') => {
            match key_event.modifiers {
                KeyModifiers::Control => app.quit(),
                KeyModifiers::Plain => app.uncover_tile(),
                _ => {},
            }
        },
        KeyCode::Up | KeyCode::Char('k') => app.game_move(Movement::Up),
        KeyCode::Down | KeyCode::Char('j') => app.game_move(Movement::Down),
        KeyCode::Left | KeyCode::Char('h') => app.game_move(Movement::Left),
        KeyCode::Right | KeyCode::Char('l') => app.game_move(Movement::Right),
        KeyCode::Enter => app.uncover_tile(),
        KeyCode::Char(' ') | KeyCode::Char('f') => app.change_cover(),
        _ => {},
    };
}

/// Handles a key once the round has ended.
pub fn update_over(app: &mut App, key_event: KeyEvent)
    requires
        old(app).wf(),
    ensures
        final(app).wf(),
        final(app)@ == after_over_key(old(app)@, key_event),
{
    match key_event.code {
        KeyCode::Esc | KeyCode::Char('q') => app.quit(),
        KeyCode::Enter => app.reset(),
        _ => {},
    }
}

} // verus!
