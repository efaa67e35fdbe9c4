//! The game: a menu, a round in play, and the end of a round.

use vstd::prelude::*;
use crate::minesweeper::board::{Board, ConfigError, check_config, config_error};
use crate::minesweeper::grid::{
    Grid, all_hidden_blank, grid_height, grid_width, hidden_safe_set, in_bounds, mine_set, tile_at,
    valid_board,
};
use crate::minesweeper::laws::law_uncover_keeps_valid;
use crate::minesweeper::layout::{
    coord, distinct_cells, laid_out, lemma_laid_out_counts, lemma_mines_of_len, mines_of,
};
use crate::minesweeper::menu::{GameLevel, MapSize, MenuKind, Movement};
use crate::minesweeper::tile::Tile;
use crate::minesweeper::uncover::{UncoverOutcome, marked, uncover_grid, uncover_outcome};

verus! {

/// Where the game stands.
#[derive(Debug, Clone, Copy, PartialEq, Eq)]
pub enum Phase {
    /// Choosing size and difficulty; no board exists.
    Menu,
    /// A round is being played.
    Playing,
    /// The round has ended, won or lost; the board is still shown.
    Over,
}

/// What the player can ask for.
#[derive(Debug, Clone, Copy, PartialEq, Eq)]
pub enum Action {
    MoveUp,
    MoveDown,
    MoveLeft,
    MoveRight,
    Uncover,
    ToggleCover,
    Confirm,
    Quit,
    MenuFocusLeft,
    MenuFocusRight,
    MenuValueUp,
    MenuValueDown,
}

/// The game as a mathematical value.
pub struct AppView {
    pub should_quit: bool,
    pub phase: Phase,
    pub menu_focus: MenuKind,
    pub menu_map_size: MapSize,
    pub menu_game_level: GameLevel,
    /// Whether the round was won; false until a round has ended.
    pub won: bool,
    /// The number of hidden cells without a mine.
    pub remaining: int,
    /// Column and row of the cursor.
    pub cursor: (int, int),
    /// The board of the round, if there is one.
    pub grid: Option<Grid>,
}

/// The game as it starts: in the menu, on the size selector, with the
/// middle tier chosen in both.
pub open spec fn initial() -> AppView {
    AppView {
        should_quit: false,
        phase: Phase::Menu,
        menu_focus: MenuKind::MapSize,
        menu_map_size: MapSize::Normal,
        menu_game_level: GameLevel::Normal,
        won: false,
        remaining: 0,
        cursor: (0, 0),
        grid: None,
    }
}

/// There is a valid board, the cursor is on it, and `remaining` is the
/// number of its hidden cells without a mine.
pub open spec fn on_board(s: AppView) -> bool {
    &&& s.grid matches Some(g)
    &&& valid_board(g)
    &&& in_bounds(g, s.cursor.0, s.cursor.1)
    &&& s.remaining == hidden_safe_set(g).len()
}

/// What holds of the game at all times. In the menu there is no board.
/// While a round is played, a safe cell is still hidden. Once it has
/// ended, it was won exactly if no safe cell is left hidden.
pub open spec fn valid(s: AppView) -> bool {
    match s.phase {
        Phase::Menu => s.grid is None && !s.won && s.remaining == 0 && s.cursor == (0int, 0int),
        Phase::Playing => on_board(s) && s.remaining > 0 && !s.won,
        Phase::Over => on_board(s) && (s.won <==> s.remaining == 0),
    }
}

/// The menu after a move of the highlight: left and right switch to the
/// other selector, up and down turn the selector that has the focus.
pub open spec fn menu_moved(s: AppView, m: Movement) -> AppView {
    match m {
        Movement::Left | Movement::Right => AppView { menu_focus: s.menu_focus.other(), ..s },
        Movement::Up => match s.menu_focus {
            MenuKind::MapSize => AppView { menu_map_size: s.menu_map_size.spec_up(), ..s },
            MenuKind::GameLevel => AppView { menu_game_level: s.menu_game_level.spec_up(), ..s },
        },
        Movement::Down => match s.menu_focus {
            MenuKind::MapSize => AppView { menu_map_size: s.menu_map_size.spec_down(), ..s },
            MenuKind::GameLevel => AppView { menu_game_level: s.menu_game_level.spec_down(), ..s },
        },
    }
}

/// The position one step from `(x, y)` on a `w` by `h` board whose
/// edges wrap around.
pub open spec fn wrapped(x: int, y: int, w: int, h: int, m: Movement) -> (int, int) {
    match m {
        Movement::Up => (x, (y + h - 1) % h),
        Movement::Down => (x, (y + 1) % h),
        Movement::Left => ((x + w - 1) % w, y),
        Movement::Right => ((x + 1) % w, y),
    }
}

/// The game after a cursor move: one step with wrap-around while a
/// round is played, no change otherwise.
pub open spec fn cursor_moved(s: AppView, m: Movement) -> AppView {
    match (s.phase, s.grid) {
        (Phase::Playing, Some(g)) => AppView {
            cursor: wrapped(s.cursor.0, s.cursor.1, grid_width(g), grid_height(g), m),
            ..s
        },
        _ => s,
    }
}

/// The game after the marking of the cell under the cursor was
/// advanced; no change unless a round is played.
pub open spec fn cover_changed(s: AppView) -> AppView {
    match (s.phase, s.grid) {
        (Phase::Playing, Some(g)) => AppView {
            grid: Some(marked(g, s.cursor.0, s.cursor.1)),
            ..s
        },
        _ => s,
    }
}

/// `remaining` less `count`, but never below zero.
pub open spec fn less(remaining: int, count: int) -> int {
    if count >= remaining {
        0
    } else {
        remaining - count
    }
}

/// The game after a request to open the cell under the cursor. A mine
/// ends the round as lost. Opening the last safe cell ends it as won.
/// No change unless a round is played.
pub open spec fn cell_uncovered(s: AppView) -> AppView {
    match (s.phase, s.grid) {
        (Phase::Playing, Some(g)) => {
            let after = Some(uncover_grid(g, s.cursor.0, s.cursor.1));
            match uncover_outcome(g, s.cursor.0, s.cursor.1) {
                UncoverOutcome::NoOp => s,
                UncoverOutcome::HitMine => AppView {
                    grid: after,
                    phase: Phase::Over,
                    won: false,
                    ..s
                },
                UncoverOutcome::Revealed(count) => {
                    let left = less(s.remaining, count as int);
                    AppView {
                        grid: after,
                        remaining: left,
                        phase: if left == 0 {
                            Phase::Over
                        } else {
                            Phase::Playing
                        },
                        won: left == 0,
                        ..s
                    }
                },
            }
        },
        _ => s,
    }
}

/// The game back in the menu: the round is discarded, the selection kept.
pub open spec fn to_menu(s: AppView) -> AppView {
    AppView { phase: Phase::Menu, won: false, remaining: 0, cursor: (0, 0), grid: None, ..s }
}

/// The game with the quit flag raised.
pub open spec fn quitting(s: AppView) -> AppView {
    AppView { should_quit: true, ..s }
}

/// The reason, if any, for which a round on a `w` by `h` board with `k`
/// mines cannot start.
pub open spec fn start_error(w: u16, h: u16, k: u16) -> Option<ConfigError> {
    if w == 0 || h == 0 {
        Some(ConfigError::EmptyBoard)
    } else if w < 2 || h < 2 {
        Some(ConfigError::BoardTooSmall)
    } else {
        config_error(w, h, k)
    }
}

/// Checks that a round on a `w` by `h` board with `k` mines can start.
pub fn check_start(w: u16, h: u16, k: u16) -> (r: Option<ConfigError>)
    ensures
        r == start_error(w, h, k),
{
    if w == 0 || h == 0 {
        Some(ConfigError::EmptyBoard)
    } else if w < 2 || h < 2 {
        Some(ConfigError::BoardTooSmall)
    } else {
        check_config(w, h, k)
    }
}

/// `after` is `before` with a round freshly started on a `w` by `h`
/// board with `k` mines: every cell hidden and unmarked, the cursor one
/// step up and left of the middle, nothing else touched.
pub open spec fn started(before: AppView, after: AppView, w: u16, h: u16, k: u16) -> bool {
    &&& after.phase is Playing
    &&& after.should_quit == before.should_quit
    &&& after.menu_focus == before.menu_focus
    &&& after.menu_map_size == before.menu_map_size
    &&& after.menu_game_level == before.menu_game_level
    &&& !after.won
    &&& after.cursor == (w / 2 - 1, h / 2 - 1)
    &&& after.remaining == w * h - k
    &&& after.grid matches Some(g)
    &&& valid_board(g)
    &&& grid_width(g) == w
    &&& grid_height(g) == h
    &&& mine_set(g).len() == k
    &&& all_hidden_blank(g)
}

/// The game after `a`, for every action whose effect is fixed by the
/// state. Confirming the menu is the one exception: it places mines at
/// random, so here it is left as no change and `started` describes it.
pub open spec fn step(s: AppView, a: Action) -> AppView {
    match s.phase {
        Phase::Menu => match a {
            Action::MenuFocusLeft => menu_moved(s, Movement::Left),
            Action::MenuFocusRight => menu_moved(s, Movement::Right),
            Action::MenuValueUp => menu_moved(s, Movement::Up),
            Action::MenuValueDown => menu_moved(s, Movement::Down),
            _ => s,
        },
        Phase::Playing => match a {
            Action::MoveUp => cursor_moved(s, Movement::Up),
            Action::MoveDown => cursor_moved(s, Movement::Down),
            Action::MoveLeft => cursor_moved(s, Movement::Left),
            Action::MoveRight => cursor_moved(s, Movement::Right),
            Action::Uncover => cell_uncovered(s),
            Action::ToggleCover => cover_changed(s),
            Action::Quit => quitting(s),
            _ => s,
        },
        Phase::Over => match a {
            Action::Confirm => to_menu(s),
            Action::Quit => quitting(s),
            _ => s,
        },
    }
}

/// The game.
#[derive(Debug)]
pub struct App {
    should_quit: bool,
    phase: Phase,
    menu_focus: MenuKind,
    menu_map_size: MapSize,
    menu_game_level: GameLevel,
    won: bool,
    empty_cnt: u32,
    curr_pos: (u16, u16),
    board: Option<Board>,
}

impl View for App {
    type V = AppView;

    closed spec fn view(&self) -> AppView {
        AppView {
            should_quit: self.should_quit,
            phase: self.phase,
            menu_focus: self.menu_focus,
            menu_map_size: self.menu_map_size,
            menu_game_level: self.menu_game_level,
            won: self.won,
            remaining: self.empty_cnt as int,
            cursor: coord(self.curr_pos),
            grid: match self.board {
                Some(b) => Some(b@),
                None => None,
            },
        }
    }
}

impl Default for App {
    fn default() -> (app: App)
        ensures
            app.wf(),
            app@ == initial(),
    {
        App::new()
    }
}

impl App {
    /// The board, if there is one, is well formed.
    pub closed spec fn inv(&self) -> bool {
        self.board matches Some(b) ==> b.wf()
    }

    /// The game is well formed.
    pub open spec fn wf(&self) -> bool {
        self.inv() && valid(self@)
    }

    /// A game in the menu, with the middle tier chosen in both selectors.
    pub fn new() -> (app: App)
        ensures
            app.wf(),
            app@ == initial(),
    {
        App {
            should_quit: false,
            phase: Phase::Menu,
            menu_focus: MenuKind::MapSize,
            menu_map_size: MapSize::Normal,
            menu_game_level: GameLevel::Normal,
            won: false,
            empty_cnt: 0,
            curr_pos: (0, 0),
            board: None,
        }
    }

    /// Called on every tick of the terminal; the game does not move by
    /// itself.
    pub fn tick(&self) {
    }

    /// Raises the quit flag.
    pub fn quit(&mut self)
        ensures
            final(self)@ == quitting(old(self)@),
            old(self).wf() ==> final(self).wf(),
    {
        self.should_quit = true;
    }

    /// Moves the highlight in the menu.
    pub fn menu_move(&mut self, movement: Movement)
        ensures
            final(self)@ == menu_moved(old(self)@, movement),
            old(self).wf() ==> final(self).wf(),
    {
        match movement {
            Movement::Left => {
                self.menu_focus = self.menu_focus.left();
            },
            Movement::Right => {
                self.menu_focus = self.menu_focus.right();
            },
            Movement::Up => match self.menu_focus {
                MenuKind::MapSize => {
                    self.menu_map_size = self.menu_map_size.up();
                },
                MenuKind::GameLevel => {
                    self.menu_game_level = self.menu_game_level.up();
                },
            },
            Movement::Down => match self.menu_focus {
                MenuKind::MapSize => {
                    self.menu_map_size = self.menu_map_size.down();
                },
                MenuKind::GameLevel => {
                    self.menu_game_level = self.menu_game_level.down();
                },
            },
        }
    }

    /// Starts a round on a board of `map_size` (width, then height) with
    /// `bomb_cnt` mines placed at random.
    ///
    /// Fails, and changes nothing, if a side is zero, if a side is
    /// shorter than two cells, or if the mines would leave no cell free.
    pub fn init_mine_map(&mut self, map_size: (u16, u16), bomb_cnt: u16) -> (r: Result<
        (),
        ConfigError,
    >)
        ensures
            match r {
                Ok(_) => {
                    &&& start_error(map_size.0, map_size.1, bomb_cnt) is None
                    &&& started(old(self)@, final(self)@, map_size.0, map_size.1, bomb_cnt)
                    &&& final(self).wf()
                },
                Err(e) => {
                    &&& start_error(map_size.0, map_size.1, bomb_cnt) == Some(e)
                    &&& *final(self) == *old(self)
                },
            },
    {
        let (w, h) = map_size;
        if let Some(e) = check_start(w, h, bomb_cnt) {
            return Err(e);
        }
        match Board::generate(w, h, bomb_cnt) {
            Err(e) => Err(e),
            Ok(board) => {
                self.begin(board, bomb_cnt);
                Ok(())
            },
        }
    }

    /// Starts a round on a board of `map_size` (width, then height)
    /// whose mines are the first `bomb_cnt` cells of `order`, each cell
    /// given as column and row.
    ///
    /// Fails, and changes nothing, if a side is zero, if a side is
    /// shorter than two cells, if the mines would leave no cell free, or
    /// if `order` does not begin with `bomb_cnt` different cells of the
    /// board.
    pub fn init_mine_map_in_order(
        &mut self,
        map_size: (u16, u16),
        bomb_cnt: u16,
        order: &Vec<(u16, u16)>,
    ) -> (r: Result<(), ConfigError>)
        ensures
            match r {
                Ok(_) => {
                    &&& start_error(map_size.0, map_size.1, bomb_cnt) is None
                    &&& distinct_cells(
                        order@,
                        bomb_cnt as int,
                        map_size.0 as int,
                        map_size.1 as int,
                    )
                    &&& started(old(self)@, final(self)@, map_size.0, map_size.1, bomb_cnt)
                    &&& final(self)@.grid == Some(
                        laid_out(
                            map_size.0 as int,
                            map_size.1 as int,
                            mines_of(order@, bomb_cnt as int),
                        ),
                    )
                    &&& final(self).wf()
                },
                Err(e) => {
                    &&& *final(self) == *old(self)
                    &&& match start_error(map_size.0, map_size.1, bomb_cnt) {
                        Some(c) => e == c,
                        None => e == ConfigError::BadOrder && !distinct_cells(
                            order@,
                            bomb_cnt as int,
                            map_size.0 as int,
                            map_size.1 as int,
                        ),
                    }
                },
            },
    {
        let (w, h) = map_size;
        if let Some(e) = check_start(w, h, bomb_cnt) {
            return Err(e);
        }
        match Board::lay_out(w, h, bomb_cnt, order) {
            Err(e) => Err(e),
            Ok(board) => {
                proof {
                    let mines = mines_of(order@, bomb_cnt as int);
                    lemma_mines_of_len(order@, bomb_cnt as int, w as int, h as int);
                    lemma_laid_out_counts(w as int, h as int, mines);
                }
                self.begin(board, bomb_cnt);
                Ok(())
            },
        }
    }

    /// Puts a new board into play.
    fn begin(&mut self, board: Board, bomb_cnt: u16)
        requires
            board.wf(),
            grid_width(board@) >= 2,
            grid_height(board@) >= 2,
            mine_set(board@).len() == bomb_cnt,
            all_hidden_blank(board@),
            hidden_safe_set(board@).len() == grid_width(board@) * grid_height(board@) - bomb_cnt,
        ensures
            final(self).wf(),
            final(self)@.grid == Some(board@),
            started(
                old(self)@,
                final(self)@,
                grid_width(board@) as u16,
                grid_height(board@) as u16,
                bomb_cnt,
            ),
    {
        let w = board.width();
        let h = board.height();
        proof {
            assert(w * h <= 65535 * 65535) by (nonlinear_arith)
                requires
                    w <= 65535,
                    h <= 65535,
            ;
        }
        self.empty_cnt = (w as u32) * (h as u32) - bomb_cnt as u32;
        self.curr_pos = (w / 2 - 1, h / 2 - 1);
        self.phase = Phase::Playing;
        self.won = false;
        self.board = Some(board);
    }

    /// Moves the cursor one step; at an edge it comes back in on the
    /// opposite side. Does nothing unless a round is played.
    pub fn game_move(&mut self, movement: Movement)
        requires
            old(self).wf(),
        ensures
            final(self).wf(),
            final(self)@ == cursor_moved(old(self)@, movement),
    {
        let (w, h) = self.map_size();
        if let Phase::Playing = self.phase {
            let (x, y) = self.curr_pos;
            let w: u32 = w as u32;
            let h: u32 = h as u32;
            match movement {
                Movement::Up => {
                    self.curr_pos.1 = ((y as u32 + h - 1) % h) as u16;
                },
                Movement::Down => {
                    self.curr_pos.1 = ((y as u32 + 1) % h) as u16;
                },
                Movement::Left => {
                    self.curr_pos.0 = ((x as u32 + w - 1) % w) as u16;
                },
                Movement::Right => {
                    self.curr_pos.0 = ((x as u32 + 1) % w) as u16;
                },
            }
        }
    }

    pub fn move_right(&mut self)
        requires
            old(self).wf(),
        ensures
            final(self).wf(),
            final(self)@ == cursor_moved(old(self)@, Movement::Right),
    {
        self.game_move(Movement::Right);
    }

    pub fn move_left(&mut self)
        requires
            old(self).wf(),
        ensures
            final(self).wf(),
            final(self)@ == cursor_moved(old(self)@, Movement::Left),
    {
        self.game_move(Movement::Left);
    }

    pub fn move_up(&mut self)
        requires
            old(self).wf(),
        ensures
            final(self).wf(),
            final(self)@ == cursor_moved(old(self)@, Movement::Up),
    {
        self.game_move(Movement::Up);
    }

    pub fn move_down(&mut self)
        requires
            old(self).wf(),
        ensures
            final(self).wf(),
            final(self)@ == cursor_moved(old(self)@, Movement::Down),
    {
        self.game_move(Movement::Down);
    }

    /// Opens the cell under the cursor. A mine ends the round as lost;
    /// opening the last cell without a mine ends it as won. Does nothing
    /// unless a round is played.
    pub fn uncover_tile(&mut self)
        requires
            old(self).wf(),
        ensures
            final(self).wf(),
            final(self)@ == cell_uncovered(old(self)@),
    {
        if let Phase::Playing = self.phase {
            let (x, y) = self.curr_pos;
            let ghost before = self@;
            let mut outcome = UncoverOutcome::NoOp;
            match &mut self.board {
                Some(board) => {
                    outcome = board.uncover(x, y);
                },
                None => {},
            }
            proof {
                law_uncover_keeps_valid(before);
            }
            match outcome {
                UncoverOutcome::NoOp => {},
                UncoverOutcome::HitMine => {
                    self.phase = Phase::Over;
                    self.won = false;
                },
                UncoverOutcome::Revealed(count) => {
                    self.empty_cnt = self.empty_cnt.saturating_sub(count);
                    if self.empty_cnt == 0 {
                        self.phase = Phase::Over;
                        self.won = true;
                    }
                },
            }
        }
    }

    /// Advances the marking of the cell under the cursor: blank, flag,
    /// question mark, blank again. Does nothing to an open cell, and
    /// nothing unless a round is played.
    pub fn change_cover(&mut self)
        requires
            old(self).wf(),
        ensures
            final(self).wf(),
            final(self)@ == cover_changed(old(self)@),
    {
        if let Phase::Playing = self.phase {
            let (x, y) = self.curr_pos;
            match &mut self.board {
                Some(board) => {
                    board.change_cover(x, y);
                },
                None => {},
            }
        }
    }

    /// Applies one action. What an action does depends on the phase; an
    /// action that has no meaning in the current phase does nothing.
    ///
    /// In the menu: the focus actions switch the selector, the value
    /// actions turn it, and `Confirm` starts a round with the chosen
    /// size and difficulty. In a round: the move actions move the
    /// cursor, `Uncover` opens the cell under it, `ToggleCover` marks
    /// it, `Quit` raises the quit flag. After a round: `Confirm` goes
    /// back to the menu and `Quit` raises the quit flag.
    pub fn apply(&mut self, action: Action)
        requires
            old(self).wf(),
        ensures
            final(self).wf(),
            if old(self)@.phase is Menu && action is Confirm {
                started(
                    old(self)@,
                    final(self)@,
                    old(self)@.menu_map_size.spec_map_size().0,
                    old(self)@.menu_map_size.spec_map_size().1,
                    old(self)@.menu_game_level.spec_bomb_cnt(old(self)@.menu_map_size),
                )
            } else {
                final(self)@ == step(old(self)@, action)
            },
    {
        match self.phase {
            Phase::Menu => match action {
                Action::MenuFocusLeft => self.menu_move(Movement::Left),
                Action::MenuFocusRight => self.menu_move(Movement::Right),
                Action::MenuValueUp => self.menu_move(Movement::Up),
                Action::MenuValueDown => self.menu_move(Movement::Down),
                Action::Confirm => self.start_selected(),
                _ => {},
            },
            Phase::Playing => match action {
                Action::MoveUp => self.game_move(Movement::Up),
                Action::MoveDown => self.game_move(Movement::Down),
                Action::MoveLeft => self.game_move(Movement::Left),
                Action::MoveRight => self.game_move(Movement::Right),
                Action::Uncover => self.uncover_tile(),
                Action::ToggleCover => self.change_cover(),
                Action::Quit => self.quit(),
                _ => {},
            },
            Phase::Over => match action {
                Action::Confirm => self.reset(),
                Action::Quit => self.quit(),
                _ => {},
            },
        }
    }

    /// The board that the menu's selection stands for: its width and
    /// height, and its number of mines.
    pub fn resolve(&self) -> (r: ((u16, u16), u16))
        ensures
            r.0 == self@.menu_map_size.spec_map_size(),
            r.1 == self@.menu_game_level.spec_bomb_cnt(self@.menu_map_size),
    {
        (self.menu_map_size.map_size(), self.menu_game_level.bomb_cnt(self.menu_map_size))
    }

    /// Starts a round with the size and difficulty chosen in the menu.
    /// Every entry of the menu's table is a valid configuration, so this
    /// cannot fail.
    pub fn start_selected(&mut self)
        ensures
            final(self).wf(),
            started(
                old(self)@,
                final(self)@,
                old(self)@.menu_map_size.spec_map_size().0,
                old(self)@.menu_map_size.spec_map_size().1,
                old(self)@.menu_game_level.spec_bomb_cnt(old(self)@.menu_map_size),
            ),
    {
        let (map_size, bomb_cnt) = self.resolve();
        let r = self.init_mine_map(map_size, bomb_cnt);
    }

    pub fn should_quit(&self) -> (r: bool)
        ensures
            r == self@.should_quit,
    {
        self.should_quit
    }

    pub fn phase(&self) -> (r: Phase)
        ensures
            r == self@.phase,
    {
        self.phase
    }

    /// Whether the menu is shown.
    pub fn menu(&self) -> (r: bool)
        ensures
            r == (self@.phase is Menu),
    {
        match self.phase {
            Phase::Menu => true,
            _ => false,
        }
    }

    /// Whether a round has ended and its board is still shown.
    pub fn over(&self) -> (r: bool)
        ensures
            r == (self@.phase is Over),
    {
        match self.phase {
            Phase::Over => true,
            _ => false,
        }
    }

    pub fn menu_focus(&self) -> (r: MenuKind)
        ensures
            r == self@.menu_focus,
    {
        self.menu_focus
    }

    pub fn menu_map_size(&self) -> (r: MapSize)
        ensures
            r == self@.menu_map_size,
    {
        self.menu_map_size
    }

    pub fn menu_game_level(&self) -> (r: GameLevel)
        ensures
            r == self@.menu_game_level,
    {
        self.menu_game_level
    }

    /// Whether the round that ended was won.
    pub fn won(&self) -> (r: bool)
        ensures
            r == self@.won,
    {
        self.won
    }

    /// The number of cells without a mine that are still hidden.
    pub fn empty_cnt(&self) -> (r: u32)
        ensures
            r == self@.remaining,
    {
        self.empty_cnt
    }

    /// Column and row of the cursor.
    pub fn curr_pos(&self) -> (r: (u16, u16))
        ensures
            coord(r) == self@.cursor,
    {
        self.curr_pos
    }

    /// Width and height of the board; zero by zero in the menu.
    pub fn map_size(&self) -> (r: (u16, u16))
        requires
            self.wf(),
        ensures
            match self@.grid {
                Some(g) => r.0 == grid_width(g) && r.1 == grid_height(g),
                None => r == (0u16, 0u16),
            },
    {
        match &self.board {
            Some(board) => (board.width(), board.height()),
            None => (0, 0),
        }
    }

    /// The number of mines on the board; zero in the menu.
    pub fn bomb_cnt(&self) -> (r: u16)
        requires
            self.wf(),
        ensures
            match self@.grid {
                Some(g) => r == mine_set(g).len(),
                None => r == 0,
            },
    {
        match &self.board {
            Some(board) => board.mine_count(),
            None => 0,
        }
    }

    /// The cell in column `x` of row `y`; `None` off the board and in
    /// the menu.
    pub fn tile(&self, x: u16, y: u16) -> (t: Option<Tile>)
        requires
            self.wf(),
        ensures
            t == match self@.grid {
                Some(g) => if in_bounds(g, x as int, y as int) {
                    Some(tile_at(g, x as int, y as int))
                } else {
                    None
                },
                None => None,
            },
    {
        match &self.board {
            Some(board) => board.tile(x, y),
            None => None,
        }
    }

    /// Leaves the round and goes back to the menu.
    pub fn reset(&mut self)
        ensures
            final(self)@ == to_menu(old(self)@),
            final(self).wf(),
    {
        self.phase = Phase::Menu;
        self.won = false;
        self.empty_cnt = 0;
        self.curr_pos = (0, 0);
        self.board = None;
    }
}

} // verus!
