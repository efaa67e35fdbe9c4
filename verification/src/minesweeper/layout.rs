//! What a freshly generated board looks like, given where its mines lie.

use vstd::prelude::*;
use crate::minesweeper::grid::{
    Grid, all_hidden_blank, cells, counts_consistent, hidden_safe_set, lemma_cells_len, mine_set,
    rectangular,
};
use crate::minesweeper::tile::{Tile, TileContent, TileCover};

verus! {

/// A coordinate pair as mathematical integers: column first, then row.
pub open spec fn coord(p: (u16, u16)) -> (int, int) {
    (p.0 as int, p.1 as int)
}

/// The first `k` entries of `order` are `k` different cells of a `w` by
/// `h` board.
pub open spec fn distinct_cells(order: Seq<(u16, u16)>, k: int, w: int, h: int) -> bool {
    &&& 0 <= k <= order.len()
    &&& forall|j: int| 0 <= j < k ==> (#[trigger] order[j]).0 < w && order[j].1 < h
    &&& forall|i: int, j: int| 0 <= i < j < k ==> #[trigger] order[i] != #[trigger] order[j]
}

/// `p` is one of the first `k` entries of `order`.
pub open spec fn placed(order: Seq<(u16, u16)>, k: int, p: (int, int)) -> bool {
    exists|j: int| 0 <= j < k && j < order.len() && coord(#[trigger] order[j]) == p
}

/// The cells named by the first `k` entries of `order`.
pub open spec fn mines_of(order: Seq<(u16, u16)>, k: int) -> Set<(int, int)> {
    Set::new(|p: (int, int)| placed(order, k, p))
}

pub open spec fn member_bit(s: Set<(int, int)>, x: int, y: int) -> int {
    if s.contains((x, y)) {
        1
    } else {
        0
    }
}

/// How many of the eight neighbours of `(x, y)` belong to `s`.
pub open spec fn around(s: Set<(int, int)>, x: int, y: int) -> int {
    member_bit(s, x - 1, y - 1) + member_bit(s, x, y - 1) + member_bit(s, x + 1, y - 1)
        + member_bit(s, x - 1, y) + member_bit(s, x + 1, y) + member_bit(s, x - 1, y + 1)
        + member_bit(s, x, y + 1) + member_bit(s, x + 1, y + 1)
}

/// The cell at `(x, y)` of a new board whose mines are `mines`: hidden
/// and unmarked, holding a mine or the number of mines around it.
pub open spec fn laid_out_tile(mines: Set<(int, int)>, x: int, y: int) -> Tile {
    Tile {
        content: if mines.contains((x, y)) {
            TileContent::Bomb
        } else {
            TileContent::Empty(around(mines, x, y) as u8)
        },
        cover: Some(TileCover::Empty),
    }
}

/// The new `w` by `h` board whose mines are `mines`.
pub open spec fn laid_out(w: int, h: int, mines: Set<(int, int)>) -> Grid {
    Seq::new(h as nat, |y: int| Seq::new(w as nat, |x: int| laid_out_tile(mines, x, y)))
}

/// Two different cells that touch, diagonals included.
pub open spec fn adjacent8(a: (int, int), b: (int, int)) -> bool {
    a != b && -1 <= a.0 - b.0 <= 1 && -1 <= a.1 - b.1 <= 1
}

/// How many of the first `i` entries of `order` touch `(x, y)`.
pub open spec fn hits(order: Seq<(u16, u16)>, i: int, x: int, y: int) -> int
    decreases i,
{
    if i <= 0 {
        0
    } else {
        hits(order, i - 1, x, y) + if adjacent8(coord(order[i - 1]), (x, y)) {
            1int
        } else {
            0int
        }
    }
}

/// A new board is rectangular, fully hidden, shows consistent counts,
/// has exactly the given mines, and hides every other cell.
pub proof fn lemma_laid_out(w: int, h: int, mines: Set<(int, int)>)
    requires
        0 <= w,
        0 <= h,
        mines.subset_of(cells(w, h)),
    ensures
        rectangular(laid_out(w, h, mines), w, h),
        all_hidden_blank(laid_out(w, h, mines)),
        counts_consistent(laid_out(w, h, mines)),
        mine_set(laid_out(w, h, mines)) == mines,
        hidden_safe_set(laid_out(w, h, mines)) == cells(w, h).difference(mines),
{
}

/// Distinct entries name as many cells as there are entries.
pub proof fn lemma_mines_of_len(order: Seq<(u16, u16)>, k: int, w: int, h: int)
    requires
        distinct_cells(order, k, w, h),
    ensures
        mines_of(order, k).finite(),
        mines_of(order, k).len() == k,
        mines_of(order, k).subset_of(cells(w, h)),
    decreases k,
{
    if k == 0 {
        assert(mines_of(order, k) =~= Set::empty());
    } else {
        lemma_mines_of_len(order, k - 1, w, h);
        let last = coord(order[k - 1]);
        assert(mines_of(order, k) =~= mines_of(order, k - 1).insert(last));
    }
}

/// One more entry adds one to the bit of the cell it names and leaves
/// every other cell's bit as it was.
proof fn lemma_member_step(order: Seq<(u16, u16)>, i: int, w: int, h: int, x: int, y: int)
    requires
        distinct_cells(order, i + 1, w, h),
        0 <= i,
    ensures
        member_bit(mines_of(order, i + 1), x, y) == member_bit(mines_of(order, i), x, y) + if coord(
            order[i],
        ) == (x, y) {
            1int
        } else {
            0int
        },
{
    let p = (x, y);
    if placed(order, i, p) {
        let j = choose|j: int| 0 <= j < i && j < order.len() && coord(#[trigger] order[j]) == p;
        assert(0 <= j < i + 1 && coord(order[j]) == p);
        assert(placed(order, i + 1, p));
        assert(order[j] != order[i]);
    } else if coord(order[i]) == p {
        assert(placed(order, i + 1, p));
    } else if placed(order, i + 1, p) {
        let j = choose|j: int|
            0 <= j < i + 1 && j < order.len() && coord(#[trigger] order[j]) == p;
        assert(j < i);
        assert(placed(order, i, p));
    }
}

/// Counting, entry by entry, the mines that touch a cell gives the
/// number of mined neighbours of that cell.
pub proof fn lemma_hits_around(order: Seq<(u16, u16)>, i: int, w: int, h: int, x: int, y: int)
    requires
        distinct_cells(order, i, w, h),
    ensures
        hits(order, i, x, y) == around(mines_of(order, i), x, y),
        0 <= hits(order, i, x, y) <= 8,
    decreases i,
{
    if i > 0 {
        let k = i - 1;
        lemma_hits_around(order, k, w, h, x, y);
        lemma_member_step(order, k, w, h, x - 1, y - 1);
        lemma_member_step(order, k, w, h, x, y - 1);
        lemma_member_step(order, k, w, h, x + 1, y - 1);
        lemma_member_step(order, k, w, h, x - 1, y);
        lemma_member_step(order, k, w, h, x + 1, y);
        lemma_member_step(order, k, w, h, x - 1, y + 1);
        lemma_member_step(order, k, w, h, x, y + 1);
        lemma_member_step(order, k, w, h, x + 1, y + 1);
    } else {
        assert forall|p: (int, int)| !placed(order, i, p) by {}
    }
}

/// A board with `k` mines among `w * h` cells hides `w * h - k` safe cells.
pub proof fn lemma_laid_out_counts(w: int, h: int, mines: Set<(int, int)>)
    requires
        0 <= w,
        0 <= h,
        mines.finite(),
        mines.subset_of(cells(w, h)),
    ensures
        hidden_safe_set(laid_out(w, h, mines)).finite(),
        hidden_safe_set(laid_out(w, h, mines)).len() == w * h - mines.len(),
{
    lemma_laid_out(w, h, mines);
    lemma_cells_len(w, h);
    vstd::set_lib::lemma_set_difference_len(cells(w, h), mines);
    assert(cells(w, h).intersect(mines) =~= mines);
}

} // verus!
