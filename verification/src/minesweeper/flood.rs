//! Spreading a reveal over the board with an explicit work list.

use vstd::prelude::*;
use crate::minesweeper::grid::{
    Grid, cells, grid_of, in_bounds, lemma_cells_len, rectangular, tile_at,
};
use crate::minesweeper::layout::coord;
use crate::minesweeper::tile::{Tile, TileContent, revealed};
use crate::minesweeper::uncover::{flood_set, floodable, reached, spreads, uncovered};

verus! {

/// The cells that were hidden in `g0` and are open in `g`.
spec fn opened(g0: Grid, g: Grid) -> Set<(int, int)> {
    Set::new(
        |p: (int, int)|
            in_bounds(g0, p.0, p.1) && tile_at(g0, p.0, p.1).cover is Some && tile_at(
                g,
                p.0,
                p.1,
            ).cover is None,
    )
}

/// `g2` is `g`, except that the cell at `(qx, qy)` has been opened if it
/// was floodable.
spec fn opens(g: Grid, g2: Grid, qx: int, qy: int) -> bool {
    &&& g2.len() == g.len()
    &&& forall|r: int| 0 <= r < g.len() ==> (#[trigger] g2[r]).len() == g[r].len()
    &&& forall|x: int, y: int|
        in_bounds(g, x, y) ==> #[trigger] tile_at(g2, x, y) == if x == qx && y == qy && floodable(
            g,
            qx,
            qy,
        ) {
            revealed(tile_at(g, x, y))
        } else {
            tile_at(g, x, y)
        }
}

/// `p` waits on the work list.
spec fn pending(stack: Seq<(u16, u16)>, p: (int, int)) -> bool {
    exists|i: int| 0 <= i < stack.len() && coord(#[trigger] stack[i]) == p
}

/// If the reveal spreads on from `(x, y)`, its floodable neighbours
/// beside, above and below all belong to `u`.
spec fn closed_at(g0: Grid, u: Set<(int, int)>, x: int, y: int) -> bool {
    spreads(g0, x, y) ==> {
        &&& floodable(g0, x - 1, y) ==> u.contains((x - 1, y))
        &&& floodable(g0, x + 1, y) ==> u.contains((x + 1, y))
        &&& floodable(g0, x, y - 1) ==> u.contains((x, y - 1))
        &&& floodable(g0, x, y + 1) ==> u.contains((x, y + 1))
    }
}

/// What holds of the grid throughout a reveal that started at
/// `(sx, sy)` on `g0`: cells are only ever opened, each opened cell is
/// one the reveal reaches, and `count` cells have been opened so far.
spec fn flood_state(g0: Grid, g: Grid, w: int, h: int, sx: int, sy: int, count: int) -> bool {
    &&& rectangular(g0, w, h)
    &&& rectangular(g, w, h)
    &&& forall|x: int, y: int|
        in_bounds(g0, x, y) ==> #[trigger] tile_at(g, x, y) == tile_at(g0, x, y) || tile_at(
            g,
            x,
            y,
        ) == revealed(tile_at(g0, x, y))
    &&& opened(g0, g).subset_of(flood_set(g0, sx, sy))
    &&& opened(g0, g).contains((sx, sy))
    &&& opened(g0, g).finite()
    &&& count == opened(g0, g).len()
}

/// What holds of the work list: it names opened cells only, and every
/// opened cell that neither waits on it nor is `cur` has had its
/// neighbours looked at.
spec fn queue_ok(g0: Grid, g: Grid, stack: Seq<(u16, u16)>, cur: Option<(int, int)>) -> bool {
    &&& forall|i: int| 0 <= i < stack.len() ==> opened(g0, g).contains(coord(#[trigger] stack[i]))
    &&& forall|p: (int, int)|
        #[trigger] opened(g0, g).contains(p) && !pending(stack, p) && cur != Some(p) ==> closed_at(
            g0,
            opened(g0, g),
            p.0,
            p.1,
        )
}

/// A set that holds the start and is closed under spreading holds every
/// cell the reveal reaches.
proof fn lemma_closed_holds_reached(
    g0: Grid,
    u: Set<(int, int)>,
    sx: int,
    sy: int,
    x: int,
    y: int,
    n: nat,
)
    requires
        u.contains((sx, sy)),
        forall|p: (int, int)| #[trigger] u.contains(p) ==> closed_at(g0, u, p.0, p.1),
        reached(g0, sx, sy, x, y, n),
    ensures
        u.contains((x, y)),
    decreases n,
{
    if n > 0 {
        let m = (n - 1) as nat;
        if reached(g0, sx, sy, x, y, m) {
            lemma_closed_holds_reached(g0, u, sx, sy, x, y, m);
        } else if reached(g0, sx, sy, x - 1, y, m) && spreads(g0, x - 1, y) {
            lemma_closed_holds_reached(g0, u, sx, sy, x - 1, y, m);
        } else if reached(g0, sx, sy, x + 1, y, m) && spreads(g0, x + 1, y) {
            lemma_closed_holds_reached(g0, u, sx, sy, x + 1, y, m);
        } else if reached(g0, sx, sy, x, y - 1, m) && spreads(g0, x, y - 1) {
            lemma_closed_holds_reached(g0, u, sx, sy, x, y - 1, m);
        } else {
            lemma_closed_holds_reached(g0, u, sx, sy, x, y + 1, m);
        }
    }
}

/// While a floodable cell is left, fewer cells have been opened than the
/// board has.
proof fn lemma_room(g0: Grid, g: Grid, w: int, h: int, sx: int, sy: int, count: int, qx: int, qy: int)
    requires
        flood_state(g0, g, w, h, sx, sy, count),
        floodable(g, qx, qy),
        0 <= w <= u16::MAX,
        0 <= h <= u16::MAX,
    ensures
        count < u32::MAX,
{
    let u = opened(g0, g);
    lemma_cells_len(w, h);
    vstd::set_lib::lemma_len_subset(u.insert((qx, qy)), cells(w, h));
    assert(w * h <= 65535 * 65535) by (nonlinear_arith)
        requires
            0 <= w <= 65535,
            0 <= h <= 65535,
    ;
}

/// Looking at one neighbour `(qx, qy)` of the cell `cur` that is being
/// worked on keeps the state of the reveal in order.
proof fn lemma_flood_step(
    g0: Grid,
    g: Grid,
    g2: Grid,
    w: int,
    h: int,
    sx: int,
    sy: int,
    count: int,
    stack: Seq<(u16, u16)>,
    stack2: Seq<(u16, u16)>,
    cur: (int, int),
    qx: int,
    qy: int,
)
    requires
        flood_state(g0, g, w, h, sx, sy, count),
        queue_ok(g0, g, stack, Some(cur)),
        opened(g0, g).contains(cur),
        spreads(g0, cur.0, cur.1),
        (qx == cur.0 && (qy == cur.1 - 1 || qy == cur.1 + 1)) || (qy == cur.1 && (qx == cur.0 - 1
            || qx == cur.0 + 1)),
        opens(g, g2, qx, qy),
        0 <= w <= u16::MAX,
        0 <= h <= u16::MAX,
        stack2 == if floodable(g, qx, qy) {
            stack.push((qx as u16, qy as u16))
        } else {
            stack
        },
    ensures
        flood_state(
            g0,
            g2,
            w,
            h,
            sx,
            sy,
            if floodable(g, qx, qy) {
                count + 1
            } else {
                count
            },
        ),
        queue_ok(g0, g2, stack2, Some(cur)),
        opened(g0, g).subset_of(opened(g0, g2)),
        floodable(g0, qx, qy) ==> opened(g0, g2).contains((qx, qy)),
{
    let u = opened(g0, g);
    let u2 = opened(g0, g2);
    assert forall|x: int, y: int| in_bounds(g0, x, y) implies #[trigger] tile_at(g2, x, y)
        == tile_at(g0, x, y) || tile_at(g2, x, y) == revealed(tile_at(g0, x, y)) by {
        assert(tile_at(g, x, y) == tile_at(g0, x, y) || tile_at(g, x, y) == revealed(
            tile_at(g0, x, y),
        ));
    }
    if floodable(g, qx, qy) {
        let q = (qx, qy);
        assert(u2 =~= u.insert(q)) by {
            assert forall|p: (int, int)| u2.contains(p) == u.insert(q).contains(p) by {
                if in_bounds(g0, p.0, p.1) {
                    assert(tile_at(g2, p.0, p.1) == if p.0 == qx && p.1 == qy {
                        revealed(tile_at(g, p.0, p.1))
                    } else {
                        tile_at(g, p.0, p.1)
                    });
                }
            }
        }
        assert(flood_set(g0, sx, sy).contains(q)) by {
            let n = choose|n: nat| reached(g0, sx, sy, cur.0, cur.1, n);
            assert(reached(g0, sx, sy, q.0, q.1, n + 1));
        }
        assert(stack2[stack.len() as int] == (qx as u16, qy as u16));
        assert forall|p: (int, int)| pending(stack, p) implies pending(stack2, p) by {
            let i = choose|i: int| 0 <= i < stack.len() && coord(#[trigger] stack[i]) == p;
            assert(stack2[i] == stack[i]);
        }
    } else {
        assert(u2 =~= u);
        if floodable(g0, qx, qy) {
            assert(tile_at(g, qx, qy) == tile_at(g0, qx, qy) || tile_at(g, qx, qy) == revealed(
                tile_at(g0, qx, qy),
            ));
        }
    }
}

/// Opens the cell at `(nx, ny)` and puts it on the work list, if that
/// position lies on the board and the cell is floodable.
fn try_open(
    cells: &mut Vec<Vec<Tile>>,
    stack: &mut Vec<(u16, u16)>,
    count: &mut u32,
    width: u16,
    height: u16,
    nx: i32,
    ny: i32,
)
    requires
        rectangular(grid_of(old(cells)@), width as int, height as int),
        floodable(grid_of(old(cells)@), nx as int, ny as int) ==> *old(count) < u32::MAX,
    ensures
        opens(grid_of(old(cells)@), grid_of(final(cells)@), nx as int, ny as int),
        final(stack)@ == if floodable(grid_of(old(cells)@), nx as int, ny as int) {
            old(stack)@.push((nx as u16, ny as u16))
        } else {
            old(stack)@
        },
        *final(count) == if floodable(grid_of(old(cells)@), nx as int, ny as int) {
            *old(count) + 1
        } else {
            *old(count) as int
        },
{
    if nx < 0 || nx >= width as i32 || ny < 0 || ny >= height as i32 {
        return ;
    }
    let tile = cells[ny as usize][nx as usize];
    if !tile.is_openable() {
        return ;
    }
    if let TileContent::Empty(_) = tile.content {
        cells[ny as usize][nx as usize].cover = None;
        *count = *count + 1;
        stack.push((nx as u16, ny as u16));
    }
}

/// Taking the last entry off the work list to work on it keeps the
/// work list in order.
proof fn lemma_take_last(g0: Grid, g: Grid, stack: Seq<(u16, u16)>)
    requires
        queue_ok(g0, g, stack, None),
        stack.len() > 0,
    ensures
        queue_ok(g0, g, stack.drop_last(), Some(coord(stack.last()))),
        opened(g0, g).contains(coord(stack.last())),
{
    let rest = stack.drop_last();
    let cur = coord(stack.last());
    assert forall|p: (int, int)|
        #[trigger] opened(g0, g).contains(p) && !pending(rest, p) && Some(cur) != Some(
            p,
        ) implies closed_at(g0, opened(g0, g), p.0, p.1) by {
        if pending(stack, p) {
            let i = choose|i: int| 0 <= i < stack.len() && coord(#[trigger] stack[i]) == p;
            assert(rest[i] == stack[i]);
        }
    }
}

/// Once nothing waits on the work list, exactly the cells that the
/// reveal reaches have been opened.
proof fn lemma_flood_done(g0: Grid, g: Grid, w: int, h: int, sx: int, sy: int, count: int)
    requires
        flood_state(g0, g, w, h, sx, sy, count),
        queue_ok(g0, g, Seq::empty(), None),
    ensures
        g == uncovered(g0, flood_set(g0, sx, sy)),
        flood_set(g0, sx, sy).finite(),
        count == flood_set(g0, sx, sy).len(),
{
    let u = opened(g0, g);
    let f = flood_set(g0, sx, sy);
    assert forall|p: (int, int)| f.contains(p) implies u.contains(p) by {
        let n = choose|n: nat| reached(g0, sx, sy, p.0, p.1, n);
        lemma_closed_holds_reached(g0, u, sx, sy, p.0, p.1, n);
    }
    assert(u =~= f);
    let target = uncovered(g0, f);
    assert forall|y: int| 0 <= y < h implies g[y] == target[y] by {
        assert forall|x: int| 0 <= x < w implies g[y][x] == target[y][x] by {
            assert(tile_at(g, x, y) == tile_at(g0, x, y) || tile_at(g, x, y) == revealed(
                tile_at(g0, x, y),
            ));
        }
    }
}

/// Fewer cells can be opened than the board has.
proof fn lemma_flood_bound(g0: Grid, g: Grid, w: int, h: int, sx: int, sy: int, count: int)
    requires
        flood_state(g0, g, w, h, sx, sy, count),
        0 <= w,
        0 <= h,
    ensures
        0 <= count <= w * h,
{
    lemma_cells_len(w, h);
    vstd::set_lib::lemma_len_subset(opened(g0, g), cells(w, h));
}

/// Opens the cell at `(x, y)` and every cell that the reveal spreads to
/// from there, and returns how many cells it opened.
pub(crate) fn flood(cells: &mut Vec<Vec<Tile>>, width: u16, height: u16, x: u16, y: u16) -> (count:
    u32)
    requires
        rectangular(grid_of(old(cells)@), width as int, height as int),
        floodable(grid_of(old(cells)@), x as int, y as int),
    ensures
        grid_of(final(cells)@) == uncovered(
            grid_of(old(cells)@),
            flood_set(grid_of(old(cells)@), x as int, y as int),
        ),
        flood_set(grid_of(old(cells)@), x as int, y as int).finite(),
        count == flood_set(grid_of(old(cells)@), x as int, y as int).len(),
{
    let ghost g0 = grid_of(cells@);
    let ghost w = width as int;
    let ghost h = height as int;
    let ghost sx = x as int;
    let ghost sy = y as int;
    let mut stack: Vec<(u16, u16)> = Vec::new();
    let mut count: u32 = 0;
    try_open(cells, &mut stack, &mut count, width, height, x as i32, y as i32);
    proof {
        let g = grid_of(cells@);
        let start = (sx, sy);
        assert(opened(g0, g) =~= Set::<(int, int)>::empty().insert(start)) by {
            assert forall|p: (int, int)| opened(g0, g).contains(p) == (p == start) by {
                if in_bounds(g0, p.0, p.1) {
                    assert(tile_at(g, p.0, p.1) == if p.0 == sx && p.1 == sy {
                        revealed(tile_at(g0, p.0, p.1))
                    } else {
                        tile_at(g0, p.0, p.1)
                    });
                }
            }
        }
        assert(reached(g0, sx, sy, start.0, start.1, 0));
        assert(stack@[0] == (x, y));
    }
    while stack.len() > 0
        invariant
            w == width,
            h == height,
            flood_state(g0, grid_of(cells@), w, h, sx, sy, count as int),
            queue_ok(g0, grid_of(cells@), stack@, None),
        decreases 2 * (w * h - count) + stack.len(),
    {
        let ghost g_in = grid_of(cells@);
        let ghost count_in = count as int;
        proof {
            lemma_take_last(g0, g_in, stack@);
            lemma_flood_bound(g0, g_in, w, h, sx, sy, count as int);
        }
        let cur = stack.pop().unwrap();
        let cx: i32 = cur.0 as i32;
        let cy: i32 = cur.1 as i32;
        let ghost c = coord(cur);
        let tile = cells[cur.1 as usize][cur.0 as usize];
        let spread = match tile.content {
            TileContent::Empty(n) => n == 0,
            TileContent::Bomb => false,
        };
        if spread {
            let ghost s0 = stack@;
            proof {
                if floodable(g_in, cx - 1, cy as int) {
                    lemma_room(g0, g_in, w, h, sx, sy, count as int, cx - 1, cy as int);
                }
            }
            try_open(cells, &mut stack, &mut count, width, height, cx - 1, cy);
            let ghost g1 = grid_of(cells@);
            let ghost s1 = stack@;
            proof {
                lemma_flood_step(g0, g_in, g1, w, h, sx, sy, count_in, s0, s1, c, cx - 1, cy as int);
                if floodable(g1, cx as int, cy + 1) {
                    lemma_room(g0, g1, w, h, sx, sy, count as int, cx as int, cy + 1);
                }
            }
            let ghost count1 = count as int;
            try_open(cells, &mut stack, &mut count, width, height, cx, cy + 1);
            let ghost g2 = grid_of(cells@);
            let ghost s2 = stack@;
            proof {
                lemma_flood_step(g0, g1, g2, w, h, sx, sy, count1, s1, s2, c, cx as int, cy + 1);
                if floodable(g2, cx + 1, cy as int) {
                    lemma_room(g0, g2, w, h, sx, sy, count as int, cx + 1, cy as int);
                }
            }
            let ghost count2 = count as int;
            try_open(cells, &mut stack, &mut count, width, height, cx + 1, cy);
            let ghost g3 = grid_of(cells@);
            let ghost s3 = stack@;
            proof {
                lemma_flood_step(g0, g2, g3, w, h, sx, sy, count2, s2, s3, c, cx + 1, cy as int);
                if floodable(g3, cx as int, cy - 1) {
                    lemma_room(g0, g3, w, h, sx, sy, count as int, cx as int, cy - 1);
                }
            }
            let ghost count3 = count as int;
            try_open(cells, &mut stack, &mut count, width, height, cx, cy - 1);
            let ghost g4 = grid_of(cells@);
            let ghost s4 = stack@;
            proof {
                lemma_flood_step(g0, g3, g4, w, h, sx, sy, count3, s3, s4, c, cx as int, cy - 1);
                lemma_flood_bound(g0, g4, w, h, sx, sy, count as int);
            }
        }
    }
    proof {
        lemma_flood_done(g0, grid_of(cells@), w, h, sx, sy, count as int);
    }
    count
}

} // verus!
