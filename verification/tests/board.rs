use tuis::minesweeper::board::{check_config, Board, ConfigError};
use tuis::minesweeper::tile::{Tile, TileContent, TileCover};
use tuis::minesweeper::uncover::UncoverOutcome;

fn corner_mine() -> Board {
    Board::lay_out(3, 3, 1, &vec![(2, 2)]).unwrap()
}

fn content(board: &Board, x: u16, y: u16) -> TileContent {
    board.tile(x, y).unwrap().content
}

fn cover(board: &Board, x: u16, y: u16) -> Option<TileCover> {
    board.tile(x, y).unwrap().cover
}

fn mines_on(board: &Board) -> usize {
    let mut n = 0;
    for y in 0..board.height() {
        for x in 0..board.width() {
            if board.tile(x, y).unwrap().content == TileContent::Bomb {
                n += 1;
            }
        }
    }
    n
}

fn mines_around(board: &Board, x: u16, y: u16) -> u8 {
    let mut n = 0;
    for dy in [-1i32, 0, 1] {
        for dx in [-1i32, 0, 1] {
            if dx == 0 && dy == 0 {
                continue;
            }
            let nx = x as i32 + dx;
            let ny = y as i32 + dy;
            if nx < 0 || ny < 0 || nx >= board.width() as i32 || ny >= board.height() as i32 {
                continue;
            }
            if board.tile(nx as u16, ny as u16).unwrap().content == TileContent::Bomb {
                n += 1;
            }
        }
    }
    n
}

fn counts_agree(board: &Board) -> bool {
    for y in 0..board.height() {
        for x in 0..board.width() {
            if let TileContent::Empty(n) = board.tile(x, y).unwrap().content {
                if n != mines_around(board, x, y) {
                    return false;
                }
            }
        }
    }
    true
}

fn hidden(board: &Board) -> usize {
    let mut n = 0;
    for y in 0..board.height() {
        for x in 0..board.width() {
            if board.tile(x, y).unwrap().cover.is_some() {
                n += 1;
            }
        }
    }
    n
}

#[test]
fn lay_out_counts_mines_around_each_cell() {
    let board = corner_mine();
    assert_eq!(board.width(), 3);
    assert_eq!(board.height(), 3);
    assert_eq!(board.mine_count(), 1);
    assert_eq!(content(&board, 2, 2), TileContent::Bomb);
    assert_eq!(content(&board, 1, 1), TileContent::Empty(1));
    assert_eq!(content(&board, 1, 2), TileContent::Empty(1));
    assert_eq!(content(&board, 2, 1), TileContent::Empty(1));
    for (x, y) in [(0, 0), (1, 0), (2, 0), (0, 1), (0, 2)] {
        assert_eq!(content(&board, x, y), TileContent::Empty(0));
    }
}

#[test]
fn lay_out_hides_every_cell_without_a_mark() {
    let board = Board::lay_out(4, 3, 2, &vec![(0, 0), (3, 2)]).unwrap();
    for y in 0..3 {
        for x in 0..4 {
            assert_eq!(cover(&board, x, y), Some(TileCover::Empty));
        }
    }
}

#[test]
fn lay_out_uses_only_the_first_entries_of_the_order() {
    let board = Board::lay_out(3, 2, 2, &vec![(1, 0), (2, 1), (0, 0), (0, 1)]).unwrap();
    assert_eq!(mines_on(&board), 2);
    assert_eq!(content(&board, 1, 0), TileContent::Bomb);
    assert_eq!(content(&board, 2, 1), TileContent::Bomb);
    assert_eq!(content(&board, 0, 0), TileContent::Empty(1));
    assert_eq!(content(&board, 0, 1), TileContent::Empty(1));
    assert_eq!(content(&board, 2, 0), TileContent::Empty(2));
    assert_eq!(content(&board, 1, 1), TileContent::Empty(2));
}

#[test]
fn a_cell_ringed_by_mines_counts_eight() {
    let ring = vec![(0, 0), (1, 0), (2, 0), (0, 1), (2, 1), (0, 2), (1, 2), (2, 2)];
    let board = Board::lay_out(3, 3, 8, &ring).unwrap();
    assert_eq!(content(&board, 1, 1), TileContent::Empty(8));
    assert_eq!(mines_on(&board), 8);
}

#[test]
fn a_board_without_mines_is_all_zero() {
    let board = Board::lay_out(2, 2, 0, &vec![]).unwrap();
    for y in 0..2 {
        for x in 0..2 {
            assert_eq!(
                board.tile(x, y),
                Some(Tile { content: TileContent::Empty(0), cover: Some(TileCover::Empty) })
            );
        }
    }
}

#[test]
fn tile_is_none_off_the_board() {
    let board = corner_mine();
    assert_eq!(board.tile(3, 0), None);
    assert_eq!(board.tile(0, 3), None);
    assert_eq!(board.tile(u16::MAX, u16::MAX), None);
}

#[test]
fn lay_out_rejects_an_empty_board() {
    assert_eq!(Board::lay_out(0, 3, 0, &vec![]).err(), Some(ConfigError::EmptyBoard));
    assert_eq!(Board::lay_out(3, 0, 0, &vec![]).err(), Some(ConfigError::EmptyBoard));
    assert_eq!(Board::lay_out(0, 0, 5, &vec![]).err(), Some(ConfigError::EmptyBoard));
}

#[test]
fn lay_out_rejects_a_board_full_of_mines() {
    let all = vec![(0, 0), (1, 0), (0, 1), (1, 1)];
    assert_eq!(Board::lay_out(2, 2, 4, &all).err(), Some(ConfigError::TooManyMines));
    assert_eq!(Board::lay_out(2, 2, 5, &all).err(), Some(ConfigError::TooManyMines));
    assert!(Board::lay_out(2, 2, 3, &all).is_ok());
}

#[test]
fn lay_out_rejects_an_order_that_is_too_short() {
    assert_eq!(Board::lay_out(3, 3, 2, &vec![(0, 0)]).err(), Some(ConfigError::BadOrder));
}

#[test]
fn lay_out_rejects_a_cell_off_the_board() {
    assert_eq!(Board::lay_out(3, 3, 1, &vec![(3, 0)]).err(), Some(ConfigError::BadOrder));
    assert_eq!(Board::lay_out(3, 3, 1, &vec![(0, 3)]).err(), Some(ConfigError::BadOrder));
}

#[test]
fn lay_out_rejects_a_cell_named_twice() {
    assert_eq!(
        Board::lay_out(3, 3, 3, &vec![(1, 1), (0, 2), (1, 1)]).err(),
        Some(ConfigError::BadOrder)
    );
}

#[test]
fn lay_out_ignores_faults_beyond_the_mines() {
    assert!(Board::lay_out(3, 3, 1, &vec![(1, 1), (1, 1), (9, 9)]).is_ok());
}

#[test]
fn check_config_names_the_fault() {
    assert_eq!(check_config(0, 1, 0), Some(ConfigError::EmptyBoard));
    assert_eq!(check_config(1, 0, 0), Some(ConfigError::EmptyBoard));
    assert_eq!(check_config(1, 1, 1), Some(ConfigError::TooManyMines));
    assert_eq!(check_config(1, 1, 0), None);
    assert_eq!(check_config(50, 40, 1999), None);
    assert_eq!(check_config(50, 40, 2000), Some(ConfigError::TooManyMines));
    assert_eq!(check_config(u16::MAX, u16::MAX, u16::MAX), None);
}

#[test]
fn generate_places_the_configured_number_of_mines() {
    for (w, h, k) in [(50, 40, 500), (40, 30, 100), (20, 15, 15), (3, 3, 8), (1, 1, 0), (7, 1, 3)]
    {
        let board = Board::generate(w, h, k).unwrap();
        assert_eq!(board.width(), w);
        assert_eq!(board.height(), h);
        assert_eq!(board.mine_count(), k);
        assert_eq!(mines_on(&board), k as usize);
    }
}

#[test]
fn generate_counts_agree_with_the_mines() {
    for _ in 0..20 {
        let board = Board::generate(20, 15, 75).unwrap();
        assert!(counts_agree(&board));
    }
    let board = Board::generate(50, 40, 500).unwrap();
    assert!(counts_agree(&board));
}

#[test]
fn generate_hides_every_cell() {
    let board = Board::generate(20, 15, 35).unwrap();
    assert_eq!(hidden(&board), 300);
    for y in 0..15 {
        for x in 0..20 {
            assert_eq!(cover(&board, x, y), Some(TileCover::Empty));
        }
    }
}

#[test]
fn generate_rejects_bad_configurations() {
    assert_eq!(Board::generate(0, 5, 0).err(), Some(ConfigError::EmptyBoard));
    assert_eq!(Board::generate(5, 0, 0).err(), Some(ConfigError::EmptyBoard));
    assert_eq!(Board::generate(5, 5, 25).err(), Some(ConfigError::TooManyMines));
    assert_eq!(Board::generate(5, 5, 26).err(), Some(ConfigError::TooManyMines));
    assert!(Board::generate(5, 5, 24).is_ok());
}

#[test]
fn generate_does_not_leave_the_cells_in_row_order() {
    // Unshuffled, the 200 mines would fill the first four rows of fifty.
    let board = Board::generate(50, 40, 200).unwrap();
    let mut in_first_rows = 0;
    for y in 0..4 {
        for x in 0..50 {
            if content(&board, x, y) == TileContent::Bomb {
                in_first_rows += 1;
            }
        }
    }
    assert!(in_first_rows < 200);
}

#[test]
fn generate_gives_different_boards() {
    let first = Board::generate(50, 40, 300).unwrap();
    let mut differs = false;
    for _ in 0..5 {
        let next = Board::generate(50, 40, 300).unwrap();
        for y in 0..40 {
            for x in 0..50 {
                if first.tile(x, y) != next.tile(x, y) {
                    differs = true;
                }
            }
        }
    }
    assert!(differs);
}

#[test]
fn uncover_spreads_over_empty_ground() {
    let mut board = corner_mine();
    assert_eq!(board.uncover(0, 0), UncoverOutcome::Revealed(8));
    for y in 0..3 {
        for x in 0..3 {
            if (x, y) == (2, 2) {
                assert_eq!(cover(&board, x, y), Some(TileCover::Empty));
            } else {
                assert_eq!(cover(&board, x, y), None);
            }
        }
    }
    assert_eq!(content(&board, 2, 2), TileContent::Bomb);
    assert_eq!(content(&board, 1, 1), TileContent::Empty(1));
}

#[test]
fn uncover_of_a_numbered_cell_opens_that_cell_only() {
    let mut board = corner_mine();
    assert_eq!(board.uncover(1, 1), UncoverOutcome::Revealed(1));
    assert_eq!(hidden(&board), 8);
    assert_eq!(cover(&board, 1, 1), None);
}

#[test]
fn uncover_of_an_open_cell_does_nothing() {
    let mut board = corner_mine();
    assert_eq!(board.uncover(1, 1), UncoverOutcome::Revealed(1));
    assert_eq!(board.uncover(1, 1), UncoverOutcome::NoOp);
    assert_eq!(hidden(&board), 8);
}

#[test]
fn uncover_of_a_flagged_cell_does_nothing() {
    let mut board = corner_mine();
    board.change_cover(0, 0);
    assert_eq!(cover(&board, 0, 0), Some(TileCover::FlagMark));
    assert_eq!(board.uncover(0, 0), UncoverOutcome::NoOp);
    assert_eq!(hidden(&board), 9);
    assert_eq!(
        board.tile(0, 0),
        Some(Tile { content: TileContent::Empty(0), cover: Some(TileCover::FlagMark) })
    );
}

#[test]
fn uncover_of_a_flagged_mine_does_nothing() {
    let mut board = corner_mine();
    board.change_cover(2, 2);
    assert_eq!(board.uncover(2, 2), UncoverOutcome::NoOp);
    assert_eq!(hidden(&board), 9);
}

#[test]
fn uncover_opens_a_cell_with_a_question_mark() {
    let mut board = corner_mine();
    board.change_cover(1, 1);
    board.change_cover(1, 1);
    assert_eq!(cover(&board, 1, 1), Some(TileCover::QuestionMark));
    assert_eq!(board.uncover(1, 1), UncoverOutcome::Revealed(1));
    assert_eq!(cover(&board, 1, 1), None);
}

#[test]
fn spreading_stops_at_flags_and_passes_question_marks() {
    // One row of five, mine at the right end: 0 0 0 1 *
    let mut board = Board::lay_out(5, 1, 1, &vec![(4, 0)]).unwrap();
    board.change_cover(1, 0);
    assert_eq!(board.uncover(0, 0), UncoverOutcome::Revealed(1));
    assert_eq!(cover(&board, 1, 0), Some(TileCover::FlagMark));
    assert_eq!(cover(&board, 2, 0), Some(TileCover::Empty));

    let mut board = Board::lay_out(5, 1, 1, &vec![(4, 0)]).unwrap();
    board.change_cover(1, 0);
    board.change_cover(1, 0);
    assert_eq!(board.uncover(0, 0), UncoverOutcome::Revealed(4));
    assert_eq!(cover(&board, 1, 0), None);
    assert_eq!(cover(&board, 3, 0), None);
    assert_eq!(cover(&board, 4, 0), Some(TileCover::Empty));
}

#[test]
fn spreading_does_not_step_diagonally() {
    // Mines at (1,0) and (0,1) wall off the corner (0,0); the empty ground
    // touches (1,1) only across a corner, at (2,2).
    //   2 * 1 0 0
    //   * 2 1 0 0
    //   1 1 0 0 0
    //   0 0 0 0 0
    let mut board = Board::lay_out(5, 4, 2, &vec![(1, 0), (0, 1)]).unwrap();
    assert_eq!(content(&board, 0, 0), TileContent::Empty(2));
    assert_eq!(content(&board, 1, 1), TileContent::Empty(2));
    assert_eq!(content(&board, 2, 2), TileContent::Empty(0));
    // From (4,3) the reveal reaches every zero and the numbers beside them,
    // but (1,1) touches a zero only diagonally, and (0,0) touches none.
    assert_eq!(board.uncover(4, 3), UncoverOutcome::Revealed(16));
    assert_eq!(cover(&board, 1, 1), Some(TileCover::Empty));
    assert_eq!(cover(&board, 0, 0), Some(TileCover::Empty));
    assert_eq!(cover(&board, 2, 1), None);
    assert_eq!(cover(&board, 1, 2), None);
    assert_eq!(cover(&board, 1, 0), Some(TileCover::Empty));
    assert_eq!(cover(&board, 0, 1), Some(TileCover::Empty));
}

#[test]
fn hitting_a_mine_shows_every_mine_and_nothing_else() {
    let mut board = Board::lay_out(4, 4, 3, &vec![(0, 0), (3, 1), (2, 3)]).unwrap();
    board.change_cover(3, 1);
    assert_eq!(board.uncover(0, 0), UncoverOutcome::HitMine);
    for y in 0..4 {
        for x in 0..4 {
            let tile = board.tile(x, y).unwrap();
            if tile.content == TileContent::Bomb {
                assert_eq!(tile.cover, None);
            } else {
                assert_eq!(tile.cover, Some(TileCover::Empty));
            }
        }
    }
    assert_eq!(mines_on(&board), 3);
    assert!(counts_agree(&board));
}

#[test]
fn a_large_empty_board_opens_in_one_go() {
    let mut board = Board::lay_out(200, 150, 1, &vec![(0, 0)]).unwrap();
    assert_eq!(board.uncover(199, 149), UncoverOutcome::Revealed(200 * 150 - 1));
    assert_eq!(hidden(&board), 1);
}

#[test]
fn change_cover_cycles_blank_flag_question() {
    let mut board = corner_mine();
    assert_eq!(cover(&board, 1, 0), Some(TileCover::Empty));
    board.change_cover(1, 0);
    assert_eq!(cover(&board, 1, 0), Some(TileCover::FlagMark));
    board.change_cover(1, 0);
    assert_eq!(cover(&board, 1, 0), Some(TileCover::QuestionMark));
    board.change_cover(1, 0);
    assert_eq!(cover(&board, 1, 0), Some(TileCover::Empty));
    assert_eq!(hidden(&board), 9);
}

#[test]
fn change_cover_leaves_an_open_cell_alone() {
    let mut board = corner_mine();
    assert_eq!(board.uncover(1, 1), UncoverOutcome::Revealed(1));
    let before = board.tile(1, 1);
    board.change_cover(1, 1);
    assert_eq!(board.tile(1, 1), before);
    assert_eq!(before.unwrap().cover, None);
}

#[test]
fn change_cover_touches_one_cell_only() {
    let mut board = corner_mine();
    board.change_cover(2, 1);
    for y in 0..3 {
        for x in 0..3 {
            if (x, y) == (2, 1) {
                assert_eq!(cover(&board, x, y), Some(TileCover::FlagMark));
            } else {
                assert_eq!(cover(&board, x, y), Some(TileCover::Empty));
            }
        }
    }
    assert!(counts_agree(&board));
}

fn tiles_of(board: &Board) -> Vec<Vec<Tile>> {
    let mut rows = vec![];
    for y in 0..board.height() {
        let mut row = vec![];
        for x in 0..board.width() {
            row.push(board.tile(x, y).unwrap());
        }
        rows.push(row);
    }
    rows
}

/// The reveal as a plain recursion over a copy of the cells.
fn reveal_by_recursion(cells: &mut Vec<Vec<Tile>>, x: usize, y: usize) -> u32 {
    let spreads = cells[y][x].content == TileContent::Empty(0);
    cells[y][x].cover = None;
    let mut count = 1;
    if !spreads {
        return count;
    }
    for (dx, dy) in [(-1i32, 0i32), (0, 1), (1, 0), (0, -1)] {
        let nx = x as i32 + dx;
        let ny = y as i32 + dy;
        if nx < 0 || ny < 0 || ny >= cells.len() as i32 || nx >= cells[0].len() as i32 {
            continue;
        }
        let tile = cells[ny as usize][nx as usize];
        match tile.cover {
            None | Some(TileCover::FlagMark) => continue,
            _ => {}
        }
        if let TileContent::Empty(_) = tile.content {
            count += reveal_by_recursion(cells, nx as usize, ny as usize);
        }
    }
    count
}

#[test]
fn uncover_agrees_with_a_recursive_reveal() {
    let mut seed: u32 = 12345;
    let mut next = |bound: u16| -> u16 {
        seed = seed.wrapping_mul(1664525).wrapping_add(1013904223);
        ((seed >> 8) % bound as u32) as u16
    };
    for round in 0..60 {
        let (w, h) = (12, 9);
        let mut board = Board::generate(w, h, 6 + round % 10).unwrap();
        for _ in 0..15 {
            let (x, y) = (next(w), next(h));
            board.change_cover(x, y);
        }
        for _ in 0..6 {
            let (x, y) = (next(w), next(h));
            let mut expected = tiles_of(&board);
            let target = expected[y as usize][x as usize];
            let outcome = board.uncover(x, y);
            match (target.cover, target.content) {
                (None, _) | (Some(TileCover::FlagMark), _) => {
                    assert_eq!(outcome, UncoverOutcome::NoOp);
                }
                (_, TileContent::Bomb) => {
                    assert_eq!(outcome, UncoverOutcome::HitMine);
                    for row in expected.iter_mut() {
                        for tile in row.iter_mut() {
                            if tile.content == TileContent::Bomb {
                                tile.cover = None;
                            }
                        }
                    }
                }
                (_, TileContent::Empty(_)) => {
                    let count = reveal_by_recursion(&mut expected, x as usize, y as usize);
                    assert_eq!(outcome, UncoverOutcome::Revealed(count));
                }
            }
            assert_eq!(tiles_of(&board), expected);
        }
    }
}
