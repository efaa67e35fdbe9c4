//! The board: a rectangle of cells with a fixed number of mines.

use vstd::prelude::*;
use crate::minesweeper::flood::flood;
use crate::minesweeper::grid::{
    Grid, all_hidden_blank, counts_consistent, grid_height, grid_of, grid_width, hidden_safe_set,
    in_bounds, is_mine, mine_set, rectangular, same_contents, tile_at, valid_board,
};
use crate::minesweeper::layout::{
    around, distinct_cells, hits, laid_out, lemma_hits_around, lemma_laid_out,
    lemma_laid_out_counts, lemma_mines_of_len, mines_of, placed,
};
use crate::minesweeper::shuffle::shuffle;
use crate::minesweeper::tile::{Tile, TileContent, TileCover, revealed};
use crate::minesweeper::uncover::{
    UncoverOutcome, flood_set, lemma_marked, lemma_uncovered, marked, uncover_grid,
    uncover_outcome, uncovered,
};

verus! {

/// Why a board could not be set up.
#[derive(Debug, Clone, Copy, PartialEq, Eq)]
pub enum ConfigError {
    /// The width or the height is zero.
    EmptyBoard,
    /// A side is shorter than two cells, so the cursor has no start position.
    BoardTooSmall,
    /// The mines would leave no cell free.
    TooManyMines,
    /// The placement order does not begin with enough different cells of
    /// the board.
    BadOrder,
}

/// The reason, if any, for which a board of `width` by `height` cells
/// cannot hold `mine_count` mines.
pub open spec fn config_error(width: u16, height: u16, mine_count: u16) -> Option<ConfigError> {
    if width == 0 || height == 0 {
        Some(ConfigError::EmptyBoard)
    } else if mine_count >= width * height {
        Some(ConfigError::TooManyMines)
    } else {
        None
    }
}

/// Checks that a board of `width` by `height` cells can hold
/// `mine_count` mines and still have a free cell.
pub fn check_config(width: u16, height: u16, mine_count: u16) -> (r: Option<ConfigError>)
    ensures
        r == config_error(width, height, mine_count),
{
    if width == 0 || height == 0 {
        return Some(ConfigError::EmptyBoard);
    }
    assert(width * height <= 65535 * 65535) by (nonlinear_arith)
        requires
            width <= 65535,
            height <= 65535,
    ;
    let total: u32 = (width as u32) * (height as u32);
    if mine_count as u32 >= total {
        Some(ConfigError::TooManyMines)
    } else {
        None
    }
}

/// A cell with a mine put into it.
spec fn mined(t: Tile) -> Tile {
    Tile { content: TileContent::Bomb, cover: t.cover }
}

/// A cell whose count has gone up by one; a mine stays a mine.
spec fn bumped(t: Tile) -> Tile {
    match t.content {
        TileContent::Empty(n) => Tile {
            content: TileContent::Empty((n + 1) as u8),
            cover: t.cover,
        },
        TileContent::Bomb => t,
    }
}

/// A rectangular board of cells.
#[derive(Debug)]
pub struct Board {
    width: u16,
    height: u16,
    mine_count: u16,
    cells: Vec<Vec<Tile>>,
}

impl View for Board {
    type V = Grid;

    closed spec fn view(&self) -> Grid {
        grid_of(self.cells@)
    }
}

/// The rows of a board without mines: every cell hidden, unmarked, and
/// counting no mine.
fn blank_cells(width: u16, height: u16) -> (cells: Vec<Vec<Tile>>)
    ensures
        grid_of(cells@) == laid_out(width as int, height as int, Set::empty()),
{
    let mut cells: Vec<Vec<Tile>> = Vec::new();
    let mut y: u16 = 0;
    while y < height
        invariant
            y <= height,
            cells@.len() == y,
            grid_of(cells@) == laid_out(width as int, y as int, Set::empty()),
        decreases height - y,
    {
        let mut row: Vec<Tile> = Vec::new();
        let mut x: u16 = 0;
        while x < width
            invariant
                x <= width,
                row@.len() == x,
                forall|i: int| 0 <= i < x ==> #[trigger] row@[i] == Tile::blank_spec(),
            decreases width - x,
        {
            row.push(Tile::blank());
            x += 1;
        }
        let ghost before = grid_of(cells@);
        let ghost target = laid_out(width as int, y + 1, Set::empty());
        cells.push(row);
        proof {
            assert forall|r: int| 0 <= r <= y implies grid_of(cells@)[r] == target[r] by {
                if r < y {
                    assert(grid_of(cells@)[r] == before[r]);
                }
            }
        }
        y += 1;
    }
    cells
}

/// Puts a mine into the cell at `(x, y)`.
fn place_mine(cells: &mut Vec<Vec<Tile>>, x: u16, y: u16)
    requires
        in_bounds(grid_of(old(cells)@), x as int, y as int),
    ensures
        grid_of(final(cells)@).len() == grid_of(old(cells)@).len(),
        forall|r: int|
            0 <= r < old(cells)@.len() ==> (#[trigger] grid_of(final(cells)@)[r]).len()
                == grid_of(old(cells)@)[r].len(),
        forall|cx: int, cy: int|
            in_bounds(grid_of(old(cells)@), cx, cy) ==> #[trigger] tile_at(
                grid_of(final(cells)@),
                cx,
                cy,
            ) == if cx == x && cy == y {
                mined(tile_at(grid_of(old(cells)@), cx, cy))
            } else {
                tile_at(grid_of(old(cells)@), cx, cy)
            },
{
    cells[y as usize][x as usize].content = TileContent::Bomb;
}

/// Adds one to the count of the cell at `(nx, ny)` if that position lies
/// on the board and holds no mine.
fn bump(cells: &mut Vec<Vec<Tile>>, width: u16, height: u16, nx: i32, ny: i32)
    requires
        rectangular(grid_of(old(cells)@), width as int, height as int),
        in_bounds(grid_of(old(cells)@), nx as int, ny as int) ==> match tile_at(
            grid_of(old(cells)@),
            nx as int,
            ny as int,
        ).content {
            TileContent::Empty(n) => n < 255,
            TileContent::Bomb => true,
        },
    ensures
        rectangular(grid_of(final(cells)@), width as int, height as int),
        forall|cx: int, cy: int|
            in_bounds(grid_of(old(cells)@), cx, cy) ==> #[trigger] tile_at(
                grid_of(final(cells)@),
                cx,
                cy,
            ) == if cx == nx && cy == ny {
                bumped(tile_at(grid_of(old(cells)@), cx, cy))
            } else {
                tile_at(grid_of(old(cells)@), cx, cy)
            },
{
    if 0 <= nx && nx < width as i32 && 0 <= ny && ny < height as i32 {
        let tile = cells[ny as usize][nx as usize];
        if let TileContent::Empty(num) = tile.content {
            cells[ny as usize][nx as usize].content = TileContent::Empty(num + 1);
        }
    }
    assert forall|r: int| 0 <= r < height implies (#[trigger] grid_of(cells@)[r]).len()
        == width by {
        assert(grid_of(old(cells)@)[r].len() == width);
    }
}

/// Every cell of a `width` by `height` board, row by row.
fn all_positions(width: u16, height: u16) -> (all: Vec<(u16, u16)>)
    ensures
        all@.len() == width * height,
        all@.no_duplicates(),
        forall|i: int| 0 <= i < all@.len() ==> (#[trigger] all@[i]).0 < width && all@[i].1 < height,
{
    let mut all: Vec<(u16, u16)> = Vec::new();
    let mut y: u16 = 0;
    while y < height
        invariant
            y <= height,
            all@.len() == y * width,
            all@.no_duplicates(),
            forall|i: int| 0 <= i < all@.len() ==> (#[trigger] all@[i]).0 < width && all@[i].1 < y,
        decreases height - y,
    {
        let mut x: u16 = 0;
        while x < width
            invariant
                x <= width,
                y < height,
                all@.len() == y * width + x,
                all@.no_duplicates(),
                forall|i: int|
                    0 <= i < all@.len() ==> (#[trigger] all@[i]).0 < width && (all@[i].1 < y || (
                    all@[i].1 == y && all@[i].0 < x)),
            decreases width - x,
        {
            all.push((x, y));
            x += 1;
        }
        assert((y + 1) * width == y * width + width) by (nonlinear_arith);
        y += 1;
    }
    all
}

/// A reordering of distinct cells of the board is again a sequence of
/// distinct cells of the board.
proof fn lemma_reordered(all: Seq<(u16, u16)>, shuffled: Seq<(u16, u16)>, k: int, w: int, h: int)
    requires
        all.no_duplicates(),
        forall|i: int| 0 <= i < all.len() ==> (#[trigger] all[i]).0 < w && all[i].1 < h,
        shuffled.to_multiset() == all.to_multiset(),
        0 <= k <= all.len(),
    ensures
        shuffled.len() == all.len(),
        distinct_cells(shuffled, k, w, h),
{
    broadcast use vstd::seq_lib::group_to_multiset_ensures;

    all.lemma_multiset_has_no_duplicates();
    shuffled.lemma_multiset_has_no_duplicates_conv();
    assert(shuffled.len() == shuffled.to_multiset().len());
    assert forall|j: int| 0 <= j < k implies (#[trigger] shuffled[j]).0 < w && shuffled[j].1
        < h by {
        let p = shuffled[j];
        assert(shuffled.to_multiset().count(p) > 0);
    }
}

/// Takes the cover off every mine.
fn show_mines(cells: &mut Vec<Vec<Tile>>, width: u16, height: u16)
    requires
        rectangular(grid_of(old(cells)@), width as int, height as int),
    ensures
        grid_of(final(cells)@) == uncovered(grid_of(old(cells)@), mine_set(grid_of(old(cells)@))),
{
    let ghost g0 = grid_of(cells@);
    let ghost w = width as int;
    let ghost h = height as int;
    let mut y: u16 = 0;
    while y < height
        invariant
            y <= height,
            w == width,
            h == height,
            rectangular(g0, w, h),
            rectangular(grid_of(cells@), w, h),
            forall|cx: int, cy: int|
                in_bounds(g0, cx, cy) ==> #[trigger] tile_at(grid_of(cells@), cx, cy) == if cy < y
                    && is_mine(g0, cx, cy) {
                    revealed(tile_at(g0, cx, cy))
                } else {
                    tile_at(g0, cx, cy)
                },
        decreases height - y,
    {
        let mut x: u16 = 0;
        while x < width
            invariant
                x <= width,
                y < height,
                w == width,
                h == height,
                rectangular(g0, w, h),
                rectangular(grid_of(cells@), w, h),
                forall|cx: int, cy: int|
                    in_bounds(g0, cx, cy) ==> #[trigger] tile_at(grid_of(cells@), cx, cy) == if (cy
                        < y || (cy == y && cx < x)) && is_mine(g0, cx, cy) {
                        revealed(tile_at(g0, cx, cy))
                    } else {
                        tile_at(g0, cx, cy)
                    },
            decreases width - x,
        {
            let ghost g = grid_of(cells@);
            proof {
                assert(in_bounds(g, x as int, y as int));
            }
            if cells[y as usize][x as usize].is_bomb() {
                cells[y as usize][x as usize].cover = None;
            }
            proof {
                let g2 = grid_of(cells@);
                assert forall|r: int| 0 <= r < h implies (#[trigger] g2[r]).len() == w by {
                    assert(g[r].len() == w);
                }
                assert forall|cx: int, cy: int| in_bounds(g0, cx, cy) implies #[trigger] tile_at(
                    g2,
                    cx,
                    cy,
                ) == if (cy < y || (cy == y && cx < x + 1)) && is_mine(g0, cx, cy) {
                    revealed(tile_at(g0, cx, cy))
                } else {
                    tile_at(g0, cx, cy)
                } by {
                    if cx != x || cy != y {
                        assert(tile_at(g2, cx, cy) == tile_at(g, cx, cy));
                    }
                }
            }
            x += 1;
        }
        y += 1;
    }
    proof {
        let g = grid_of(cells@);
        let target = uncovered(g0, mine_set(g0));
        assert forall|r: int| 0 <= r < h implies g[r] == target[r] by {
            assert forall|c: int| 0 <= c < w implies g[r][c] == target[r][c] by {
                assert(tile_at(g, c, r) == if is_mine(g0, c, r) {
                    revealed(tile_at(g0, c, r))
                } else {
                    tile_at(g0, c, r)
                });
            }
        }
    }
}

/// The cell at `(x, y)` once the first `i` mines have been put down.
spec fn placing_tile(order: Seq<(u16, u16)>, i: int, x: int, y: int) -> Tile {
    Tile {
        content: if placed(order, i, (x, y)) {
            TileContent::Bomb
        } else {
            TileContent::Empty(0)
        },
        cover: Some(TileCover::Empty),
    }
}

/// The cell at `(x, y)` once the first `i` of the `k` mines have been
/// counted into their neighbours.
spec fn counting_tile(order: Seq<(u16, u16)>, k: int, i: int, x: int, y: int) -> Tile {
    Tile {
        content: if placed(order, k, (x, y)) {
            TileContent::Bomb
        } else {
            TileContent::Empty(hits(order, i, x, y) as u8)
        },
        cover: Some(TileCover::Empty),
    }
}

impl Board {
    /// The fields agree with the grid.
    pub closed spec fn inv(&self) -> bool {
        &&& self.width == grid_width(self@)
        &&& self.height == grid_height(self@)
        &&& self.mine_count == mine_set(self@).len()
    }

    /// The board is well formed.
    pub open spec fn wf(&self) -> bool {
        self.inv() && valid_board(self@)
    }

    pub fn width(&self) -> (w: u16)
        requires
            self.wf(),
        ensures
            w == grid_width(self@),
    {
        self.width
    }

    pub fn height(&self) -> (h: u16)
        requires
            self.wf(),
        ensures
            h == grid_height(self@),
    {
        self.height
    }

    /// The number of mines on the board.
    pub fn mine_count(&self) -> (n: u16)
        requires
            self.wf(),
        ensures
            n == mine_set(self@).len(),
    {
        self.mine_count
    }

    /// The cell in column `x` of row `y`, or `None` off the board.
    pub fn tile(&self, x: u16, y: u16) -> (t: Option<Tile>)
        requires
            self.wf(),
        ensures
            t == if in_bounds(self@, x as int, y as int) {
                Some(tile_at(self@, x as int, y as int))
            } else {
                None
            },
    {
        if x < self.width && y < self.height {
            Some(self.cells[y as usize][x as usize])
        } else {
            None
        }
    }

    /// Advances the marking of the cell at `(x, y)` from blank to flag,
    /// from flag to question mark, from question mark to blank. An open
    /// cell is left alone.
    pub fn change_cover(&mut self, x: u16, y: u16)
        requires
            old(self).wf(),
            in_bounds(old(self)@, x as int, y as int),
        ensures
            final(self).wf(),
            final(self)@ == marked(old(self)@, x as int, y as int),
            same_contents(final(self)@, old(self)@),
            mine_set(final(self)@) == mine_set(old(self)@),
            hidden_safe_set(final(self)@) == hidden_safe_set(old(self)@),
    {
        let ghost g0 = self@;
        self.cells[y as usize][x as usize].change_cover();
        proof {
            let g = self@;
            let target = marked(g0, x as int, y as int);
            assert forall|r: int| 0 <= r < g0.len() implies g[r] == target[r] by {
            }
            assert(g =~= target);
            lemma_marked(g0, x as int, y as int);
        }
    }

    /// Opens the cell at `(x, y)`.
    ///
    /// An open or flagged cell is left alone. A mine ends the round:
    /// every mine on the board is shown. Any other cell is opened, and
    /// if no mine is around it the reveal spreads to the cells beside,
    /// above and below it, and on from each of those that has no mine
    /// around it either. Flagged cells stop the spreading; diagonal
    /// neighbours are not reached directly.
    pub fn uncover(&mut self, x: u16, y: u16) -> (out: UncoverOutcome)
        requires
            old(self).wf(),
            in_bounds(old(self)@, x as int, y as int),
        ensures
            final(self).wf(),
            final(self)@ == uncover_grid(old(self)@, x as int, y as int),
            out == uncover_outcome(old(self)@, x as int, y as int),
            same_contents(final(self)@, old(self)@),
            mine_set(final(self)@) == mine_set(old(self)@),
    {
        let ghost g0 = self@;
        let tile = self.cells[y as usize][x as usize];
        if !tile.is_openable() {
            return UncoverOutcome::NoOp;
        }
        match tile.content {
            TileContent::Bomb => {
                show_mines(&mut self.cells, self.width, self.height);
                proof {
                    lemma_uncovered(g0, mine_set(g0));
                }
                UncoverOutcome::HitMine
            },
            TileContent::Empty(_) => {
                let count = flood(&mut self.cells, self.width, self.height, x, y);
                proof {
                    lemma_uncovered(g0, flood_set(g0, x as int, y as int));
                }
                UncoverOutcome::Revealed(count)
            },
        }
    }

    /// Builds a board of `width` by `height` cells with `mine_count`
    /// mines placed at random. Every cell starts hidden and unmarked;
    /// every cell without a mine holds the number of mines around it.
    ///
    /// Fails if the board would have no cell or if the mines would leave
    /// no cell free.
    pub fn generate(width: u16, height: u16, mine_count: u16) -> (r: Result<Board, ConfigError>)
        ensures
            match r {
                Ok(b) => {
                    &&& config_error(width, height, mine_count) is None
                    &&& b.wf()
                    &&& counts_consistent(b@)
                    &&& grid_width(b@) == width
                    &&& grid_height(b@) == height
                    &&& mine_set(b@).len() == mine_count
                    &&& all_hidden_blank(b@)
                    &&& hidden_safe_set(b@).len() == width * height - mine_count
                },
                Err(e) => config_error(width, height, mine_count) == Some(e),
            },
    {
        if let Some(e) = check_config(width, height, mine_count) {
            return Err(e);
        }
        let mut positions = all_positions(width, height);
        let ghost all = positions@;
        shuffle(&mut positions);
        proof {
            lemma_reordered(all, positions@, mine_count as int, width as int, height as int);
        }
        let r = Board::lay_out(width, height, mine_count, &positions);
        proof {
            if let Ok(b) = &r {
                let mines = mines_of(positions@, mine_count as int);
                lemma_mines_of_len(positions@, mine_count as int, width as int, height as int);
                lemma_laid_out_counts(width as int, height as int, mines);
            }
        }
        r
    }

    /// Builds the board whose mines are the first `mine_count` cells of
    /// `order`, each cell given as column and row. Every cell starts
    /// hidden and unmarked; every cell without a mine holds the number
    /// of mines around it.
    ///
    /// Fails if the board would have no cell, if the mines would leave
    /// no cell free, or if `order` does not begin with `mine_count`
    /// different cells of the board.
    pub fn lay_out(width: u16, height: u16, mine_count: u16, order: &Vec<(u16, u16)>) -> (r:
        Result<Board, ConfigError>)
        ensures
            match r {
                Ok(b) => {
                    &&& config_error(width, height, mine_count) is None
                    &&& distinct_cells(order@, mine_count as int, width as int, height as int)
                    &&& b.wf()
                    &&& counts_consistent(b@)
                    &&& mine_set(b@).len() == mine_count
                    &&& b@ == laid_out(
                        width as int,
                        height as int,
                        mines_of(order@, mine_count as int),
                    )
                },
                Err(e) => match config_error(width, height, mine_count) {
                    Some(c) => e == c,
                    None => e == ConfigError::BadOrder && !distinct_cells(
                        order@,
                        mine_count as int,
                        width as int,
                        height as int,
                    ),
                },
            },
    {
        if let Some(e) = check_config(width, height, mine_count) {
            return Err(e);
        }
        let k: usize = mine_count as usize;
        if order.len() < k {
            return Err(ConfigError::BadOrder);
        }
        let ghost w = width as int;
        let ghost h = height as int;
        let mut cells = blank_cells(width, height);
        let mut i: usize = 0;
        while i < k
            invariant
                i <= k <= order@.len(),
                k == mine_count,
                w == width,
                h == height,
                config_error(width, height, mine_count) is None,
                rectangular(grid_of(cells@), w, h),
                distinct_cells(order@, i as int, w, h),
                forall|x: int, y: int|
                    in_bounds(grid_of(cells@), x, y) ==> #[trigger] tile_at(grid_of(cells@), x, y)
                        == placing_tile(order@, i as int, x, y),
            decreases k - i,
        {
            let (x, y) = order[i];
            if x >= width || y >= height {
                return Err(ConfigError::BadOrder);
            }
            assert(tile_at(grid_of(cells@), x as int, y as int) == placing_tile(
                order@,
                i as int,
                x as int,
                y as int,
            ));
            if cells[y as usize][x as usize].is_bomb() {
                return Err(ConfigError::BadOrder);
            }
            place_mine(&mut cells, x, y);
            assert(rectangular(grid_of(cells@), w, h));
            i += 1;
        }
        proof {
            assert forall|x: int, y: int| in_bounds(grid_of(cells@), x, y) implies #[trigger] tile_at(
                grid_of(cells@),
                x,
                y,
            ) == counting_tile(order@, k as int, 0, x, y) by {}
        }
        let mut i: usize = 0;
        while i < k
            invariant
                i <= k <= order@.len(),
                k == mine_count,
                w == width,
                h == height,
                rectangular(grid_of(cells@), w, h),
                distinct_cells(order@, k as int, w, h),
                forall|x: int, y: int|
                    in_bounds(grid_of(cells@), x, y) ==> #[trigger] tile_at(grid_of(cells@), x, y)
                        == counting_tile(order@, k as int, i as int, x, y),
            decreases k - i,
        {
            let (x, y) = order[i];
            let xi: i32 = x as i32;
            let yi: i32 = y as i32;
            proof {
                assert forall|cx: int, cy: int|
                    0 <= #[trigger] hits(order@, i as int, cx, cy) <= 8 by {
                    lemma_hits_around(order@, i as int, w, h, cx, cy);
                }
            }
            bump(&mut cells, width, height, xi - 1, yi - 1);
            bump(&mut cells, width, height, xi - 1, yi);
            bump(&mut cells, width, height, xi - 1, yi + 1);
            bump(&mut cells, width, height, xi, yi + 1);
            bump(&mut cells, width, height, xi + 1, yi + 1);
            bump(&mut cells, width, height, xi + 1, yi);
            bump(&mut cells, width, height, xi + 1, yi - 1);
            bump(&mut cells, width, height, xi, yi - 1);
            assert(rectangular(grid_of(cells@), w, h));
            i += 1;
        }
        proof {
            let mines = mines_of(order@, k as int);
            lemma_mines_of_len(order@, k as int, w, h);
            lemma_laid_out(w, h, mines);
            let g = grid_of(cells@);
            let target = laid_out(w, h, mines);
            assert forall|y: int| 0 <= y < h implies g[y] == target[y] by {
                assert forall|x: int| 0 <= x < w implies g[y][x] == target[y][x] by {
                    assert(tile_at(g, x, y) == counting_tile(order@, k as int, k as int, x, y));
                    lemma_hits_around(order@, k as int, w, h, x, y);
                }
            }
            assert(g =~= target);
        }
        Ok(Board { width, height, mine_count, cells })
    }
}

} // verus!
