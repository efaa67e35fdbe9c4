//! The mathematical model of a board: a sequence of rows of cells, and
//! what it means for such a grid to be a well-formed Minesweeper board.

use vstd::prelude::*;
use vstd::set_lib::lemma_set_disjoint_lens;
use crate::minesweeper::tile::{Tile, TileContent, TileCover};

verus! {

/// Rows from top to bottom; each row holds its cells from left to right.
/// The cell in column `x` of row `y` is `g[y][x]`.
pub type Grid = Seq<Seq<Tile>>;

/// The grid that a vector of rows stands for.
pub open spec fn grid_of(rows: Seq<Vec<Tile>>) -> Grid {
    Seq::new(rows.len(), |y: int| rows[y]@)
}

/// `g` has `h` rows of `w` cells each.
pub open spec fn rectangular(g: Grid, w: int, h: int) -> bool {
    &&& g.len() == h
    &&& forall|y: int| 0 <= y < h ==> (#[trigger] g[y]).len() == w
}

pub open spec fn grid_height(g: Grid) -> int {
    g.len() as int
}

pub open spec fn grid_width(g: Grid) -> int {
    if g.len() > 0 {
        g[0].len() as int
    } else {
        0
    }
}

pub open spec fn in_bounds(g: Grid, x: int, y: int) -> bool {
    0 <= y < g.len() && 0 <= x < g[y].len()
}

pub open spec fn tile_at(g: Grid, x: int, y: int) -> Tile {
    g[y][x]
}

/// Column `x` of row `y` lies on the grid and holds a mine.
pub open spec fn is_mine(g: Grid, x: int, y: int) -> bool {
    in_bounds(g, x, y) && tile_at(g, x, y).content is Bomb
}

pub open spec fn mine_bit(g: Grid, x: int, y: int) -> int {
    if is_mine(g, x, y) {
        1
    } else {
        0
    }
}

/// The number of mines among the eight neighbours of `(x, y)`; positions
/// off the grid count as free of mines.
pub open spec fn adjacent_mines(g: Grid, x: int, y: int) -> int {
    mine_bit(g, x - 1, y - 1) + mine_bit(g, x, y - 1) + mine_bit(g, x + 1, y - 1)
        + mine_bit(g, x - 1, y) + mine_bit(g, x + 1, y)
        + mine_bit(g, x - 1, y + 1) + mine_bit(g, x, y + 1) + mine_bit(g, x + 1, y + 1)
}

/// Every cell without a mine shows the number of mines around it.
pub open spec fn counts_consistent(g: Grid) -> bool {
    forall|x: int, y: int|
        in_bounds(g, x, y) ==> match (#[trigger] tile_at(g, x, y)).content {
            TileContent::Empty(n) => n == adjacent_mines(g, x, y),
            TileContent::Bomb => true,
        }
}

/// All coordinates of a `w` by `h` board.
pub open spec fn cells(w: int, h: int) -> Set<(int, int)> {
    Set::new(|p: (int, int)| 0 <= p.0 < w && 0 <= p.1 < h)
}

/// The coordinates that hold a mine.
pub open spec fn mine_set(g: Grid) -> Set<(int, int)> {
    Set::new(|p: (int, int)| is_mine(g, p.0, p.1))
}

/// The coordinates of the mine-free cells that are still hidden.
pub open spec fn hidden_safe_set(g: Grid) -> Set<(int, int)> {
    Set::new(
        |p: (int, int)|
            in_bounds(g, p.0, p.1) && tile_at(g, p.0, p.1).content is Empty && tile_at(
                g,
                p.0,
                p.1,
            ).cover is Some,
    )
}

/// Every cell is hidden and carries no mark.
pub open spec fn all_hidden_blank(g: Grid) -> bool {
    forall|x: int, y: int|
        in_bounds(g, x, y) ==> (#[trigger] tile_at(g, x, y)).cover == Some(TileCover::Empty)
}

/// `g` and `old` have the same shape and the same content in every cell;
/// only covers may differ.
pub open spec fn same_contents(g: Grid, old: Grid) -> bool {
    &&& g.len() == old.len()
    &&& forall|y: int| 0 <= y < g.len() ==> (#[trigger] g[y]).len() == old[y].len()
    &&& forall|x: int, y: int|
        in_bounds(old, x, y) ==> (#[trigger] tile_at(g, x, y)).content == tile_at(
            old,
            x,
            y,
        ).content
}

/// A well-formed board: at least one row and one column, no side longer
/// than `u16::MAX`, counts that agree with the mines, and at least one
/// cell without a mine.
pub open spec fn valid_board(g: Grid) -> bool {
    &&& 1 <= grid_height(g) <= u16::MAX
    &&& 1 <= grid_width(g) <= u16::MAX
    &&& rectangular(g, grid_width(g), grid_height(g))
    &&& counts_consistent(g)
    &&& mine_set(g).len() < grid_width(g) * grid_height(g)
}

spec fn row_cells(w: int, y: int) -> Set<(int, int)> {
    Set::new(|p: (int, int)| 0 <= p.0 < w && p.1 == y)
}

proof fn lemma_row_cells_len(w: int, y: int)
    requires
        0 <= w,
    ensures
        row_cells(w, y).finite(),
        row_cells(w, y).len() == w,
    decreases w,
{
    if w == 0 {
        assert(row_cells(w, y) =~= Set::empty());
    } else {
        lemma_row_cells_len(w - 1, y);
        assert(row_cells(w, y) =~= row_cells(w - 1, y).insert((w - 1, y)));
    }
}

/// A `w` by `h` board has `w * h` coordinates.
pub proof fn lemma_cells_len(w: int, h: int)
    requires
        0 <= w,
        0 <= h,
    ensures
        cells(w, h).finite(),
        cells(w, h).len() == w * h,
    decreases h,
{
    if h == 0 {
        assert(cells(w, h) =~= Set::empty());
    } else {
        lemma_cells_len(w, h - 1);
        lemma_row_cells_len(w, h - 1);
        let below = cells(w, h - 1);
        let row = row_cells(w, h - 1);
        assert(cells(w, h) =~= below + row);
        lemma_set_disjoint_lens(below, row);
        assert(w * h == w * (h - 1) + w) by (nonlinear_arith);
    }
}

/// On a rectangular grid, being in bounds means lying among its cells.
pub proof fn lemma_in_bounds(g: Grid, w: int, h: int)
    requires
        rectangular(g, w, h),
    ensures
        forall|x: int, y: int| in_bounds(g, x, y) <==> (0 <= x < w && 0 <= y < h),
        h > 0 ==> grid_width(g) == w,
        grid_height(g) == h,
{
}

/// The mines and the hidden mine-free cells of a rectangular grid are
/// finite sets of its coordinates, and they do not overlap.
pub proof fn lemma_cell_sets(g: Grid, w: int, h: int)
    requires
        rectangular(g, w, h),
        0 <= w,
        0 <= h,
    ensures
        mine_set(g).subset_of(cells(w, h)),
        hidden_safe_set(g).subset_of(cells(w, h)),
        mine_set(g).finite(),
        hidden_safe_set(g).finite(),
        mine_set(g).len() <= w * h,
        hidden_safe_set(g).len() <= w * h,
        mine_set(g).disjoint(hidden_safe_set(g)),
{
    lemma_cells_len(w, h);
    vstd::set_lib::lemma_len_subset(mine_set(g), cells(w, h));
    vstd::set_lib::lemma_len_subset(hidden_safe_set(g), cells(w, h));
}

} // verus!
