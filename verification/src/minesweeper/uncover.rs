//! The reveal rules: opening one cell, spreading over empty ground,
//! and showing every mine after a hit.

use vstd::prelude::*;
use crate::minesweeper::grid::{
    Grid, adjacent_mines, counts_consistent, grid_height, grid_width, hidden_safe_set, in_bounds,
    is_mine, lemma_cell_sets, mine_set, rectangular, same_contents, tile_at, valid_board,
};
use crate::minesweeper::tile::{TileContent, openable, revealed, toggled};

verus! {

/// What a request to open a cell did.
#[derive(Debug, Clone, Copy, PartialEq, Eq)]
pub enum UncoverOutcome {
    /// The cell was already open, or it is flagged: nothing changed.
    NoOp,
    /// This many cells without a mine were opened.
    Revealed(u32),
    /// The cell held a mine; every mine on the board is now shown.
    HitMine,
}

/// `g` with the cover taken off every cell of `s`.
pub open spec fn uncovered(g: Grid, s: Set<(int, int)>) -> Grid {
    Seq::new(
        g.len(),
        |y: int|
            Seq::new(
                g[y].len(),
                |x: int|
                    if s.contains((x, y)) {
                        revealed(g[y][x])
                    } else {
                        g[y][x]
                    },
            ),
    )
}

/// `g` with the marking of the cell at `(x, y)` advanced one step.
pub open spec fn marked(g: Grid, x: int, y: int) -> Grid {
    Seq::new(
        g.len(),
        |r: int|
            Seq::new(
                g[r].len(),
                |c: int|
                    if c == x && r == y {
                        toggled(g[r][c])
                    } else {
                        g[r][c]
                    },
            ),
    )
}

/// A cell that spreading may open: on the grid, hidden, not flagged,
/// and free of a mine.
pub open spec fn floodable(g: Grid, x: int, y: int) -> bool {
    in_bounds(g, x, y) && openable(tile_at(g, x, y)) && tile_at(g, x, y).content is Empty
}

/// A cell from which a reveal spreads on: it has no mine around it.
pub open spec fn spreads(g: Grid, x: int, y: int) -> bool {
    in_bounds(g, x, y) && tile_at(g, x, y).content == TileContent::Empty(0)
}

/// Spreading from `(sx, sy)` gets to `(x, y)` in at most `n` steps. A
/// step goes from a floodable cell that has no mine around it to a
/// floodable cell beside, above or below it; diagonal steps do not exist.
pub open spec fn reached(g: Grid, sx: int, sy: int, x: int, y: int, n: nat) -> bool
    decreases n,
{
    if n == 0 {
        x == sx && y == sy && floodable(g, sx, sy)
    } else {
        let m = (n - 1) as nat;
        ||| reached(g, sx, sy, x, y, m)
        ||| (floodable(g, x, y) && {
            ||| (reached(g, sx, sy, x - 1, y, m) && spreads(g, x - 1, y))
            ||| (reached(g, sx, sy, x + 1, y, m) && spreads(g, x + 1, y))
            ||| (reached(g, sx, sy, x, y - 1, m) && spreads(g, x, y - 1))
            ||| (reached(g, sx, sy, x, y + 1, m) && spreads(g, x, y + 1))
        })
    }
}

/// Every cell that opening `(sx, sy)` reveals.
pub open spec fn flood_set(g: Grid, sx: int, sy: int) -> Set<(int, int)> {
    Set::new(|p: (int, int)| exists|n: nat| reached(g, sx, sy, p.0, p.1, n))
}

/// The grid after a request to open the cell at `(x, y)`: unchanged if
/// the cell is open or flagged; every mine shown if it holds a mine;
/// otherwise opened as far as the reveal spreads.
pub open spec fn uncover_grid(g: Grid, x: int, y: int) -> Grid {
    let t = tile_at(g, x, y);
    if !openable(t) {
        g
    } else if t.content is Bomb {
        uncovered(g, mine_set(g))
    } else {
        uncovered(g, flood_set(g, x, y))
    }
}

/// What a request to open the cell at `(x, y)` reports.
pub open spec fn uncover_outcome(g: Grid, x: int, y: int) -> UncoverOutcome {
    let t = tile_at(g, x, y);
    if !openable(t) {
        UncoverOutcome::NoOp
    } else if t.content is Bomb {
        UncoverOutcome::HitMine
    } else {
        UncoverOutcome::Revealed(flood_set(g, x, y).len() as u32)
    }
}

/// Whatever is reached is a floodable cell.
pub proof fn lemma_reached_floodable(g: Grid, sx: int, sy: int, x: int, y: int, n: nat)
    requires
        reached(g, sx, sy, x, y, n),
    ensures
        floodable(g, x, y),
    decreases n,
{
    if n > 0 {
        if reached(g, sx, sy, x, y, (n - 1) as nat) {
            lemma_reached_floodable(g, sx, sy, x, y, (n - 1) as nat);
        }
    }
}

/// The cells a reveal opens are hidden cells without a mine, finitely
/// many, and the start is one of them.
pub proof fn lemma_flood_set(g: Grid, w: int, h: int, sx: int, sy: int)
    requires
        rectangular(g, w, h),
        0 <= w,
        0 <= h,
    ensures
        flood_set(g, sx, sy).subset_of(hidden_safe_set(g)),
        flood_set(g, sx, sy).finite(),
        flood_set(g, sx, sy).len() <= hidden_safe_set(g).len(),
        floodable(g, sx, sy) ==> flood_set(g, sx, sy).contains((sx, sy)),
{
    assert forall|p: (int, int)| flood_set(g, sx, sy).contains(p) implies hidden_safe_set(
        g,
    ).contains(p) by {
        let n = choose|n: nat| reached(g, sx, sy, p.0, p.1, n);
        lemma_reached_floodable(g, sx, sy, p.0, p.1, n);
    }
    lemma_cell_sets(g, w, h);
    vstd::set_lib::lemma_len_subset(flood_set(g, sx, sy), hidden_safe_set(g));
    if floodable(g, sx, sy) {
        let start = (sx, sy);
        assert(reached(g, sx, sy, start.0, start.1, 0));
    }
}

/// Taking covers off changes no content, so the mines and the counts
/// stay as they are, and a valid board stays valid.
pub proof fn lemma_uncovered(g: Grid, s: Set<(int, int)>)
    ensures
        same_contents(uncovered(g, s), g),
        grid_width(uncovered(g, s)) == grid_width(g),
        grid_height(uncovered(g, s)) == grid_height(g),
        mine_set(uncovered(g, s)) == mine_set(g),
        counts_consistent(g) ==> counts_consistent(uncovered(g, s)),
        valid_board(g) ==> valid_board(uncovered(g, s)),
        hidden_safe_set(uncovered(g, s)) == hidden_safe_set(g).difference(s),
{
    let u = uncovered(g, s);
    assert forall|x: int, y: int| is_mine(u, x, y) == is_mine(g, x, y) by {}
    assert(mine_set(u) =~= mine_set(g));
    assert forall|x: int, y: int| adjacent_mines(u, x, y) == adjacent_mines(g, x, y) by {}
    if counts_consistent(g) {
        assert forall|x: int, y: int| in_bounds(u, x, y) implies match (#[trigger] tile_at(
            u,
            x,
            y,
        )).content {
            TileContent::Empty(n) => n == adjacent_mines(u, x, y),
            TileContent::Bomb => true,
        } by {
            assert(in_bounds(g, x, y));
            assert(tile_at(u, x, y).content == tile_at(g, x, y).content);
        }
    }
    assert(hidden_safe_set(u) =~= hidden_safe_set(g).difference(s)) by {
        assert forall|p: (int, int)| hidden_safe_set(u).contains(p) == hidden_safe_set(
            g,
        ).difference(s).contains(p) by {
            if in_bounds(g, p.0, p.1) {
                assert(tile_at(u, p.0, p.1) == if s.contains(p) {
                    revealed(tile_at(g, p.0, p.1))
                } else {
                    tile_at(g, p.0, p.1)
                });
            }
        }
    }
}

/// Marking a cell changes no content and opens nothing.
pub proof fn lemma_marked(g: Grid, x: int, y: int)
    ensures
        same_contents(marked(g, x, y), g),
        grid_width(marked(g, x, y)) == grid_width(g),
        grid_height(marked(g, x, y)) == grid_height(g),
        mine_set(marked(g, x, y)) == mine_set(g),
        valid_board(g) ==> valid_board(marked(g, x, y)),
        hidden_safe_set(marked(g, x, y)) == hidden_safe_set(g),
{
    let u = marked(g, x, y);
    assert forall|cx: int, cy: int| is_mine(u, cx, cy) == is_mine(g, cx, cy) by {}
    assert forall|cx: int, cy: int| adjacent_mines(u, cx, cy) == adjacent_mines(g, cx, cy) by {}
    if counts_consistent(g) {
        assert forall|cx: int, cy: int| in_bounds(u, cx, cy) implies match (#[trigger] tile_at(
            u,
            cx,
            cy,
        )).content {
            TileContent::Empty(n) => n == adjacent_mines(u, cx, cy),
            TileContent::Bomb => true,
        } by {
            assert(tile_at(u, cx, cy).content == tile_at(g, cx, cy).content);
        }
    }
    assert(hidden_safe_set(u) =~= hidden_safe_set(g)) by {
        assert forall|p: (int, int)| hidden_safe_set(u).contains(p) == hidden_safe_set(
            g,
        ).contains(p) by {
            if in_bounds(g, p.0, p.1) {
                assert(tile_at(u, p.0, p.1) == if p.0 == x && p.1 == y {
                    toggled(tile_at(g, p.0, p.1))
                } else {
                    tile_at(g, p.0, p.1)
                });
            }
        }
    }
}

} // verus!
