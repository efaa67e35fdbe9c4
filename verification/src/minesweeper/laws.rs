//! Laws of the game, proved once and for all.

use vstd::prelude::*;
use crate::minesweeper::app::{
    Action, AppView, Phase, cell_uncovered, cover_changed, cursor_moved, menu_moved, step, valid,
    wrapped,
};
use crate::minesweeper::grid::{
    Grid, grid_height, grid_width, hidden_safe_set, in_bounds, is_mine, lemma_cell_sets,
    lemma_in_bounds, mine_set, tile_at, valid_board,
};
use crate::minesweeper::menu::{GameLevel, MapSize, Movement};
use crate::minesweeper::tile::{Tile, TileCover, openable, toggled};
use crate::minesweeper::uncover::{
    UncoverOutcome, flood_set, lemma_flood_set, lemma_marked, lemma_uncovered, marked,
    uncover_grid, uncover_outcome,
};

verus! {

/// Marking a hidden cell three times brings back the marking it had,
/// and the two markings in between differ from it. Marking an open cell
/// changes nothing.
pub proof fn law_cover_cycle(t: Tile)
    ensures
        toggled(toggled(toggled(t))) == t,
        t.cover is Some ==> toggled(t) != t && toggled(toggled(t)) != t,
        t.cover is None ==> toggled(t) == t,
{
}

/// Marking the same cell of a grid three times gives the grid back.
pub proof fn law_mark_thrice(g: Grid, x: int, y: int)
    ensures
        marked(marked(marked(g, x, y), x, y), x, y) == g,
{
    let g1 = marked(g, x, y);
    let g2 = marked(g1, x, y);
    let g3 = marked(g2, x, y);
    assert forall|r: int| 0 <= r < g.len() implies g3[r] == g[r] by {
        assert forall|c: int| 0 <= c < g[r].len() implies g3[r][c] == g[r][c] by {
            assert(g1[r][c] == if c == x && r == y {
                toggled(g[r][c])
            } else {
                g[r][c]
            });
            assert(g2[r][c] == if c == x && r == y {
                toggled(g1[r][c])
            } else {
                g1[r][c]
            });
        }
    }
}

/// Asking three times to mark the cell under the cursor leaves the game
/// as it was.
pub proof fn law_change_cover_thrice(s: AppView)
    ensures
        cover_changed(cover_changed(cover_changed(s))) == s,
{
    if let (Phase::Playing, Some(g)) = (s.phase, s.grid) {
        law_mark_thrice(g, s.cursor.0, s.cursor.1);
    }
}

/// The cursor wraps around: one step left of the first column is the
/// last column, one step right of the last column is the first, and
/// likewise for rows. Away from the edges a step changes the position
/// by one. The other coordinate never changes.
pub proof fn law_cursor_wraps(x: int, y: int, w: int, h: int)
    requires
        0 <= x < w,
        0 <= y < h,
    ensures
        wrapped(0, y, w, h, Movement::Left) == (w - 1, y),
        wrapped(w - 1, y, w, h, Movement::Right) == (0int, y),
        wrapped(x, 0, w, h, Movement::Up) == (x, h - 1),
        wrapped(x, h - 1, w, h, Movement::Down) == (x, 0int),
        x > 0 ==> wrapped(x, y, w, h, Movement::Left) == (x - 1, y),
        x < w - 1 ==> wrapped(x, y, w, h, Movement::Right) == (x + 1, y),
        y > 0 ==> wrapped(x, y, w, h, Movement::Up) == (x, y - 1),
        y < h - 1 ==> wrapped(x, y, w, h, Movement::Down) == (x, y + 1),
{
    lemma_step_back(x, w);
    lemma_step_back(0, w);
    lemma_step_on(x, w);
    lemma_step_on(w - 1, w);
    lemma_step_back(y, h);
    lemma_step_back(0, h);
    lemma_step_on(y, h);
    lemma_step_on(h - 1, h);
}

proof fn lemma_step_back(x: int, w: int)
    requires
        0 <= x < w,
    ensures
        (x + w - 1) % w == if x == 0 {
            w - 1
        } else {
            x - 1
        },
{
    if x == 0 {
        vstd::arithmetic::div_mod::lemma_small_mod((w - 1) as nat, w as nat);
    } else {
        vstd::arithmetic::div_mod::lemma_fundamental_div_mod_converse(x + w - 1, w, 1, x - 1);
    }
}

proof fn lemma_step_on(x: int, w: int)
    requires
        0 <= x < w,
    ensures
        (x + 1) % w == if x == w - 1 {
            0
        } else {
            x + 1
        },
{
    if x == w - 1 {
        vstd::arithmetic::div_mod::lemma_fundamental_div_mod_converse(x + 1, w, 1, 0);
    } else {
        vstd::arithmetic::div_mod::lemma_small_mod((x + 1) as nat, w as nat);
    }
}

/// A cursor on the board stays on the board, whichever way it moves.
pub proof fn law_cursor_stays_on_board(x: int, y: int, w: int, h: int, m: Movement)
    requires
        0 <= x < w,
        0 <= y < h,
    ensures
        0 <= wrapped(x, y, w, h, m).0 < w,
        0 <= wrapped(x, y, w, h, m).1 < h,
{
}

/// Opening a flagged cell changes nothing on the board and reports that
/// nothing was done.
pub proof fn law_flag_protects(g: Grid, x: int, y: int)
    requires
        tile_at(g, x, y).cover == Some(TileCover::FlagMark),
    ensures
        uncover_grid(g, x, y) == g,
        uncover_outcome(g, x, y) == UncoverOutcome::NoOp,
{
}

/// Asking to open a flagged cell under the cursor leaves the game as it
/// was.
pub proof fn law_flag_protects_round(s: AppView)
    requires
        s.grid matches Some(g) && tile_at(g, s.cursor.0, s.cursor.1).cover == Some(
            TileCover::FlagMark,
        ),
    ensures
        cell_uncovered(s) == s,
{
}

/// Opening a hidden, unflagged cell that holds a mine reports the hit
/// and takes the cover off every mine of the board; no other cell
/// changes.
pub proof fn law_mine_shows_all(g: Grid, x: int, y: int)
    requires
        in_bounds(g, x, y),
        tile_at(g, x, y).content is Bomb,
        openable(tile_at(g, x, y)),
    ensures
        uncover_outcome(g, x, y) == UncoverOutcome::HitMine,
        forall|cx: int, cy: int|
            is_mine(g, cx, cy) ==> (#[trigger] tile_at(uncover_grid(g, x, y), cx, cy)).cover is None,
        forall|cx: int, cy: int|
            in_bounds(g, cx, cy) && !is_mine(g, cx, cy) ==> #[trigger] tile_at(
                uncover_grid(g, x, y),
                cx,
                cy,
            ) == tile_at(g, cx, cy),
        forall|cx: int, cy: int|
            in_bounds(g, cx, cy) ==> (#[trigger] tile_at(uncover_grid(g, x, y), cx, cy)).content
                == tile_at(g, cx, cy).content,
{
    assert forall|cx: int, cy: int| mine_set(g).contains((cx, cy)) == is_mine(g, cx, cy) by {}
}

/// In a round, opening a hidden, unflagged mine under the cursor ends
/// the round as lost, with every mine shown.
pub proof fn law_mine_loses(s: AppView)
    requires
        valid(s),
        s.phase is Playing,
        tile_at(s.grid->0, s.cursor.0, s.cursor.1).content is Bomb,
        openable(tile_at(s.grid->0, s.cursor.0, s.cursor.1)),
    ensures
        cell_uncovered(s).phase is Over,
        !cell_uncovered(s).won,
        cell_uncovered(s).remaining == s.remaining,
        cell_uncovered(s).grid == Some(uncover_grid(s.grid->0, s.cursor.0, s.cursor.1)),
        forall|cx: int, cy: int|
            is_mine(s.grid->0, cx, cy) ==> (#[trigger] tile_at(
                cell_uncovered(s).grid->0,
                cx,
                cy,
            )).cover is None,
{
}

/// Neither opening nor marking a cell ever changes what a cell holds,
/// and neither ever puts a cover back on an open cell.
pub proof fn law_open_cells_stay_open(g: Grid, x: int, y: int, cx: int, cy: int)
    requires
        in_bounds(g, cx, cy),
    ensures
        in_bounds(uncover_grid(g, x, y), cx, cy),
        in_bounds(marked(g, x, y), cx, cy),
        tile_at(uncover_grid(g, x, y), cx, cy).content == tile_at(g, cx, cy).content,
        tile_at(marked(g, x, y), cx, cy).content == tile_at(g, cx, cy).content,
        tile_at(g, cx, cy).cover is None ==> tile_at(uncover_grid(g, x, y), cx, cy).cover is None,
        tile_at(g, cx, cy).cover is None ==> tile_at(marked(g, x, y), cx, cy).cover is None,
{
}

/// Whatever the action, as long as a board is in play its cells keep
/// what they hold, and an open cell stays open.
pub proof fn law_step_keeps_cells(s: AppView, a: Action, cx: int, cy: int)
    requires
        s.grid is Some,
        step(s, a).grid is Some,
        in_bounds(s.grid->0, cx, cy),
    ensures
        in_bounds(step(s, a).grid->0, cx, cy),
        tile_at(step(s, a).grid->0, cx, cy).content == tile_at(s.grid->0, cx, cy).content,
        tile_at(s.grid->0, cx, cy).cover is None ==> tile_at(step(s, a).grid->0, cx, cy).cover
            is None,
{
}

/// Opening a cell keeps a valid board valid. If it reveals cells, it
/// reveals at least one, and the number of hidden cells without a mine
/// goes down by exactly the number revealed; otherwise that number
/// stays as it was.
pub proof fn law_uncover_counts(g: Grid, x: int, y: int)
    requires
        valid_board(g),
        in_bounds(g, x, y),
    ensures
        valid_board(uncover_grid(g, x, y)),
        grid_width(uncover_grid(g, x, y)) == grid_width(g),
        grid_height(uncover_grid(g, x, y)) == grid_height(g),
        hidden_safe_set(g).finite(),
        hidden_safe_set(uncover_grid(g, x, y)).finite(),
        hidden_safe_set(g).len() <= u32::MAX,
        match uncover_outcome(g, x, y) {
            UncoverOutcome::Revealed(count) => {
                &&& 1 <= count <= hidden_safe_set(g).len()
                &&& hidden_safe_set(uncover_grid(g, x, y)).len() == hidden_safe_set(g).len()
                    - count
            },
            _ => hidden_safe_set(uncover_grid(g, x, y)).len() == hidden_safe_set(g).len(),
        },
{
    let w = grid_width(g);
    let h = grid_height(g);
    let f = flood_set(g, x, y);
    lemma_cell_sets(g, w, h);
    lemma_flood_set(g, w, h, x, y);
    lemma_uncovered(g, mine_set(g));
    lemma_uncovered(g, f);
    vstd::set_lib::lemma_set_difference_len(hidden_safe_set(g), f);
    assert(hidden_safe_set(g).intersect(f) =~= f);
    assert(hidden_safe_set(g).difference(mine_set(g)) =~= hidden_safe_set(g));
    assert(w * h <= 65535 * 65535) by (nonlinear_arith)
        requires
            0 <= w <= 65535,
            0 <= h <= 65535,
    ;
}

/// A request to open the cell under the cursor keeps the game valid and
/// never raises the number of hidden safe cells; in a round it lowers
/// that number by exactly the number of cells it opened.
pub proof fn law_uncover_keeps_valid(s: AppView)
    requires
        valid(s),
    ensures
        valid(cell_uncovered(s)),
        cell_uncovered(s).remaining <= s.remaining,
        s.phase is Playing ==> match uncover_outcome(s.grid->0, s.cursor.0, s.cursor.1) {
            UncoverOutcome::Revealed(count) => {
                &&& 1 <= count <= s.remaining
                &&& cell_uncovered(s).remaining == s.remaining - count
            },
            _ => cell_uncovered(s).remaining == s.remaining,
        },
{
    if let (Phase::Playing, Some(g0)) = (s.phase, s.grid) {
        law_uncover_counts(g0, s.cursor.0, s.cursor.1);
        let g1 = uncover_grid(g0, s.cursor.0, s.cursor.1);
        lemma_in_bounds(g0, grid_width(g0), grid_height(g0));
        lemma_in_bounds(g1, grid_width(g0), grid_height(g0));
    }
}

/// A request to mark the cell under the cursor keeps the game valid and
/// leaves the number of hidden safe cells as it was.
pub proof fn law_mark_keeps_valid(s: AppView)
    requires
        valid(s),
    ensures
        valid(cover_changed(s)),
        cover_changed(s).remaining == s.remaining,
        cover_changed(s).phase == s.phase,
{
    if let (Phase::Playing, Some(g0)) = (s.phase, s.grid) {
        lemma_marked(g0, s.cursor.0, s.cursor.1);
        let g1 = marked(g0, s.cursor.0, s.cursor.1);
        lemma_in_bounds(g1, grid_width(g0), grid_height(g0));
    }
}

/// A cursor move keeps the game valid and changes the cursor only.
pub proof fn law_move_keeps_valid(s: AppView, m: Movement)
    requires
        valid(s),
    ensures
        valid(cursor_moved(s, m)),
        cursor_moved(s, m).remaining == s.remaining,
        cursor_moved(s, m).phase == s.phase,
        cursor_moved(s, m).grid == s.grid,
{
}

/// Every action keeps the game valid.
pub proof fn law_step_keeps_valid(s: AppView, a: Action)
    requires
        valid(s),
    ensures
        valid(step(s, a)),
{
    law_uncover_keeps_valid(s);
    law_mark_keeps_valid(s);
    law_move_keeps_valid(s, Movement::Up);
    law_move_keeps_valid(s, Movement::Down);
    law_move_keeps_valid(s, Movement::Left);
    law_move_keeps_valid(s, Movement::Right);
}

/// No action in a round raises the number of hidden safe cells. After
/// the action the round is over and won exactly if that number is zero;
/// it goes on exactly if the number is positive and no mine was hit.
pub proof fn law_round_step(s: AppView, a: Action)
    requires
        valid(s),
        s.phase is Playing,
    ensures
        step(s, a).remaining <= s.remaining,
        step(s, a).phase !is Menu,
        step(s, a).remaining == 0 <==> step(s, a).phase is Over && step(s, a).won,
        step(s, a).phase is Playing ==> step(s, a).remaining > 0,
{
    law_step_keeps_valid(s, a);
}

/// Outside the menu no action raises the number of hidden safe cells,
/// and every action keeps the game valid.
proof fn lemma_step_outside_menu(s: AppView, a: Action)
    requires
        valid(s),
        s.phase !is Menu,
    ensures
        valid(step(s, a)),
        step(s, a).remaining <= s.remaining || step(s, a).phase is Menu,
{
    law_step_keeps_valid(s, a);
    law_uncover_keeps_valid(s);
    law_mark_keeps_valid(s);
    law_move_keeps_valid(s, Movement::Up);
    law_move_keeps_valid(s, Movement::Down);
    law_move_keeps_valid(s, Movement::Left);
    law_move_keeps_valid(s, Movement::Right);
}

/// The game after a sequence of actions, applied from first to last.
pub open spec fn run(s: AppView, actions: Seq<Action>) -> AppView
    decreases actions.len(),
{
    if actions.len() == 0 {
        s
    } else {
        step(run(s, actions.drop_last()), actions.last())
    }
}

/// Whatever actions follow the start of a round: as long as the game
/// has not gone back to the menu, the number of hidden safe cells never
/// goes up from one moment to a later one, the round is over and won
/// exactly at the moments at which that number is zero, and while the
/// round goes on the number is positive. So the win comes with the
/// action that first brings the number to zero, and with no other.
pub proof fn law_round_sequence(s: AppView, actions: Seq<Action>, i: int, j: int)
    requires
        valid(s),
        s.phase is Playing,
        0 <= i <= j <= actions.len(),
        run(s, actions.take(j)).phase !is Menu,
    ensures
        valid(run(s, actions.take(j))),
        run(s, actions.take(i)).phase !is Menu,
        run(s, actions.take(j)).remaining <= run(s, actions.take(i)).remaining,
        run(s, actions.take(j)).remaining == 0 <==> run(s, actions.take(j)).phase is Over && run(
            s,
            actions.take(j),
        ).won,
        run(s, actions.take(j)).phase is Playing ==> run(s, actions.take(j)).remaining > 0,
    decreases j,
{
    if j > 0 {
        let before = actions.take(j - 1);
        assert(actions.take(j).drop_last() =~= before);
        assert(actions.take(j).last() == actions[j - 1]);
        let sp = run(s, before);
        let sj = run(s, actions.take(j));
        assert(sj == step(sp, actions[j - 1]));
        // A step never leaves the menu, so the game was not in the menu
        // before the last action either.
        if sp.phase !is Menu {
            law_round_sequence(s, actions, if i < j {
                i
            } else {
                j - 1
            }, j - 1);
            lemma_step_outside_menu(sp, actions[j - 1]);
        }
    }
}

/// Each menu selector runs through its three tiers in a cycle, upwards
/// and downwards: three steps the same way lead back, fewer do not, and
/// a step one way undoes a step the other way.
pub proof fn law_tiers_cycle(size: MapSize, level: GameLevel)
    ensures
        size.spec_up().spec_up().spec_up() == size,
        size.spec_down().spec_down().spec_down() == size,
        size.spec_up() != size && size.spec_up().spec_up() != size,
        size.spec_down() != size && size.spec_down().spec_down() != size,
        size.spec_up().spec_down() == size && size.spec_down().spec_up() == size,
        level.spec_up().spec_up().spec_up() == level,
        level.spec_down().spec_down().spec_down() == level,
        level.spec_up() != level && level.spec_up().spec_up() != level,
        level.spec_down() != level && level.spec_down().spec_down() != level,
        level.spec_up().spec_down() == level && level.spec_down().spec_up() == level,
{
}

/// In the menu, three moves up, or three moves down, bring back the
/// selection as it was; so do two moves to the side.
pub proof fn law_menu_cycle(s: AppView)
    ensures
        menu_moved(menu_moved(menu_moved(s, Movement::Up), Movement::Up), Movement::Up) == s,
        menu_moved(menu_moved(menu_moved(s, Movement::Down), Movement::Down), Movement::Down)
            == s,
        menu_moved(menu_moved(s, Movement::Left), Movement::Left) == s,
        menu_moved(menu_moved(s, Movement::Right), Movement::Right) == s,
        menu_moved(s, Movement::Left) == menu_moved(s, Movement::Right),
{
}

/// Every entry of the menu's table names a board at least two cells
/// wide and high with fewer mines than cells.
pub proof fn law_table_is_playable(size: MapSize, level: GameLevel)
    ensures
        size.spec_map_size().0 >= 2,
        size.spec_map_size().1 >= 2,
        level.spec_bomb_cnt(size) < size.spec_map_size().0 * size.spec_map_size().1,
{
}

} // verus!
