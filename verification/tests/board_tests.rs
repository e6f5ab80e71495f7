use purple_box::board::{Board, BOARD_HEIGHT, BOARD_WIDTH};
use purple_box::tetromino::{Tetromino, TetrominoType};

fn piece_at(variant: TetrominoType, rotation: usize, x: i32, y: i32) -> Tetromino {
    let mut piece = Tetromino::new(variant);
    for _ in 0..rotation {
        piece.rotate();
    }
    piece.x = x;
    piece.y = y;
    piece
}

fn fill_row(board: &mut Board, y: usize, tag: TetrominoType) {
    for x in 0..BOARD_WIDTH {
        board.grid[y][x] = Some(tag);
    }
}

fn locked_cells(board: &Board) -> usize {
    board.grid.iter().map(|row| row.iter().filter(|cell| cell.is_some()).count()).sum()
}

#[test]
fn board_dimensions() {
    assert_eq!(BOARD_WIDTH, 10);
    assert_eq!(BOARD_HEIGHT, 15);
    let board = Board::new();
    assert_eq!(board.grid.len(), 15);
    assert_eq!(board.grid[0].len(), 10);
}

#[test]
fn new_board_is_empty() {
    let board = Board::new();
    assert_eq!(locked_cells(&board), 0);
    assert_eq!(board.grid, [[None; BOARD_WIDTH]; BOARD_HEIGHT]);
}

#[test]
fn clear_empties_the_board() {
    let mut board = Board::new();
    fill_row(&mut board, 14, TetrominoType::I);
    board.grid[3][4] = Some(TetrominoType::T);
    board.clear();
    assert_eq!(board, Board::new());
}

#[test]
fn spawned_pieces_fit_on_the_empty_board() {
    let board = Board::new();
    let all = [
        TetrominoType::I,
        TetrominoType::O,
        TetrominoType::T,
        TetrominoType::S,
        TetrominoType::Z,
        TetrominoType::J,
        TetrominoType::L,
        TetrominoType::U,
        TetrominoType::V,
        TetrominoType::W,
        TetrominoType::X,
        TetrominoType::Y,
        TetrominoType::ZCustom,
    ];
    for variant in all {
        assert!(board.is_valid_position(&Tetromino::new(variant)));
    }
}

#[test]
fn position_is_invalid_past_the_left_edge() {
    let board = Board::new();
    assert!(board.is_valid_position(&piece_at(TetrominoType::T, 0, 0, 5)));
    assert!(!board.is_valid_position(&piece_at(TetrominoType::T, 0, -1, 5)));
    assert!(board.is_valid_position(&piece_at(TetrominoType::I, 1, -2, 5)));
    assert!(!board.is_valid_position(&piece_at(TetrominoType::I, 1, -3, 5)));
}

#[test]
fn position_is_invalid_past_the_right_edge() {
    let board = Board::new();
    assert!(board.is_valid_position(&piece_at(TetrominoType::I, 0, 6, 5)));
    assert!(!board.is_valid_position(&piece_at(TetrominoType::I, 0, 7, 5)));
    assert!(board.is_valid_position(&piece_at(TetrominoType::I, 3, 8, 5)));
    assert!(!board.is_valid_position(&piece_at(TetrominoType::I, 3, 9, 5)));
}

#[test]
fn position_is_invalid_below_the_bottom() {
    let board = Board::new();
    assert!(board.is_valid_position(&piece_at(TetrominoType::O, 0, 3, 13)));
    assert!(!board.is_valid_position(&piece_at(TetrominoType::O, 0, 3, 14)));
    assert!(board.is_valid_position(&piece_at(TetrominoType::I, 0, 3, 13)));
    assert!(!board.is_valid_position(&piece_at(TetrominoType::I, 0, 3, 14)));
}

#[test]
fn position_is_invalid_above_the_top() {
    let board = Board::new();
    assert!(board.is_valid_position(&piece_at(TetrominoType::I, 0, 3, -1)));
    assert!(!board.is_valid_position(&piece_at(TetrominoType::I, 0, 3, -2)));
    assert!(!board.is_valid_position(&piece_at(TetrominoType::O, 0, 3, -1)));
}

#[test]
fn position_is_invalid_on_a_locked_cell() {
    let mut board = Board::new();
    board.grid[6][4] = Some(TetrominoType::Z);
    // The square at (3, 5) covers columns 4 and 5 of rows 5 and 6.
    assert!(!board.is_valid_position(&piece_at(TetrominoType::O, 0, 3, 5)));
    assert!(!board.is_valid_position(&piece_at(TetrominoType::O, 0, 3, 6)));
    assert!(!board.is_valid_position(&piece_at(TetrominoType::O, 0, 2, 5)));
    assert!(board.is_valid_position(&piece_at(TetrominoType::O, 0, 4, 5)));
    assert!(board.is_valid_position(&piece_at(TetrominoType::O, 0, 3, 4)));
    assert!(board.is_valid_position(&piece_at(TetrominoType::O, 0, 3, 7)));
}

#[test]
fn position_far_away_is_invalid_without_overflow() {
    let board = Board::new();
    assert!(!board.is_valid_position(&piece_at(TetrominoType::O, 0, i32::MAX, i32::MAX)));
    assert!(!board.is_valid_position(&piece_at(TetrominoType::O, 0, i32::MIN, i32::MIN)));
    assert!(!board.is_valid_position(&piece_at(TetrominoType::O, 0, 3, i32::MAX)));
    assert!(!board.is_valid_position(&piece_at(TetrominoType::O, 0, i32::MIN, 3)));
}

#[test]
fn validity_goes_by_the_cached_grid() {
    let board = Board::new();
    let mut piece = piece_at(TetrominoType::O, 0, 9, 14);
    assert!(!board.is_valid_position(&piece));
    piece.blocks = [[false; 4]; 4];
    piece.blocks[0][0] = true;
    assert!(board.is_valid_position(&piece));
    piece.blocks[0][1] = true;
    assert!(!board.is_valid_position(&piece));
}

#[test]
fn place_stamps_the_covered_cells() {
    let mut board = Board::new();
    board.grid[14][0] = Some(TetrominoType::J);
    board.place_tetromino(&piece_at(TetrominoType::T, 0, 4, 7));
    let mut expected = Board::new();
    expected.grid[14][0] = Some(TetrominoType::J);
    expected.grid[7][5] = Some(TetrominoType::T);
    expected.grid[8][4] = Some(TetrominoType::T);
    expected.grid[8][5] = Some(TetrominoType::T);
    expected.grid[8][6] = Some(TetrominoType::T);
    assert_eq!(board, expected);
}

#[test]
fn place_overwrites_with_the_colour_of_the_piece() {
    let mut board = Board::new();
    board.grid[8][5] = Some(TetrominoType::J);
    board.place_tetromino(&piece_at(TetrominoType::T, 0, 4, 7));
    assert_eq!(board.grid[8][5], Some(TetrominoType::T));
    assert_eq!(locked_cells(&board), 4);
}

#[test]
fn place_skips_cells_outside_the_board() {
    let mut board = Board::new();
    board.place_tetromino(&piece_at(TetrominoType::O, 0, 7, 14));
    let mut expected = Board::new();
    expected.grid[14][8] = Some(TetrominoType::O);
    expected.grid[14][9] = Some(TetrominoType::O);
    assert_eq!(board, expected);

    let mut board = Board::new();
    board.place_tetromino(&piece_at(TetrominoType::I, 0, -2, -1));
    let mut expected = Board::new();
    expected.grid[0][0] = Some(TetrominoType::I);
    expected.grid[0][1] = Some(TetrominoType::I);
    assert_eq!(board, expected);

    let mut board = Board::new();
    board.place_tetromino(&piece_at(TetrominoType::I, 0, i32::MAX, i32::MIN));
    board.place_tetromino(&piece_at(TetrominoType::I, 0, 20, 3));
    board.place_tetromino(&piece_at(TetrominoType::I, 0, 3, 20));
    assert_eq!(board, Board::new());
}

#[test]
fn clear_without_a_full_row_changes_nothing() {
    let mut board = Board::new();
    fill_row(&mut board, 14, TetrominoType::I);
    board.grid[14][3] = None;
    board.place_tetromino(&piece_at(TetrominoType::L, 1, 5, 10));
    let before = board;
    assert_eq!(board.clear_lines_with_animation(), Vec::<usize>::new());
    assert_eq!(board, before);
    assert_eq!(board.clear_lines(), 0);
    assert_eq!(board, before);
}

#[test]
fn clear_after_placing_keeps_the_placed_cells() {
    let mut board = Board::new();
    board.grid[14][0] = Some(TetrominoType::S);
    let before = board;
    let piece = piece_at(TetrominoType::O, 0, 3, 13);
    board.place_tetromino(&piece);
    assert!(board.clear_lines_with_animation().is_empty());
    for y in 0..BOARD_HEIGHT {
        for x in 0..BOARD_WIDTH {
            let placed = (y == 13 || y == 14) && (x == 4 || x == 5);
            if placed {
                assert_eq!(board.grid[y][x], Some(TetrominoType::O));
            } else {
                assert_eq!(board.grid[y][x], before.grid[y][x]);
            }
        }
    }
}

#[test]
fn clear_removes_the_full_bottom_row() {
    let mut board = Board::new();
    fill_row(&mut board, 14, TetrominoType::I);
    board.grid[13][2] = Some(TetrominoType::T);
    board.grid[5][7] = Some(TetrominoType::Z);
    board.grid[0][9] = Some(TetrominoType::L);
    let before = board;
    let cleared = board.clear_lines_with_animation();
    assert_eq!(cleared, vec![14]);
    assert_eq!(board.grid[0], [None; BOARD_WIDTH]);
    for y in 1..BOARD_HEIGHT {
        assert_eq!(board.grid[y], before.grid[y - 1]);
    }
    assert_eq!(locked_cells(&board) + BOARD_WIDTH, locked_cells(&before));
    assert_eq!(board.grid[14][2], Some(TetrominoType::T));
    assert_eq!(board.grid[6][7], Some(TetrominoType::Z));
    assert_eq!(board.grid[1][9], Some(TetrominoType::L));
}

#[test]
fn clear_lines_counts_the_rows() {
    let mut board = Board::new();
    fill_row(&mut board, 14, TetrominoType::I);
    fill_row(&mut board, 12, TetrominoType::O);
    board.grid[13][0] = Some(TetrominoType::T);
    let mut other = board;
    assert_eq!(board.clear_lines(), 2);
    assert_eq!(other.clear_lines_with_animation().len(), 2);
    assert_eq!(board, other);
    assert_eq!(locked_cells(&board), 1);
    assert_eq!(board.grid[14][0], Some(TetrominoType::T));
}

#[test]
fn clear_reports_each_row_by_its_index_before_the_call() {
    let mut board = Board::new();
    fill_row(&mut board, 14, TetrominoType::I);
    fill_row(&mut board, 13, TetrominoType::O);
    board.grid[12][4] = Some(TetrominoType::T);
    let cleared = board.clear_lines_with_animation();
    assert_eq!(cleared, vec![14, 13]);
    assert_eq!(locked_cells(&board), 1);
    assert_eq!(board.grid[14][4], Some(TetrominoType::T));

    let mut board = Board::new();
    fill_row(&mut board, 14, TetrominoType::I);
    fill_row(&mut board, 10, TetrominoType::O);
    fill_row(&mut board, 3, TetrominoType::O);
    assert_eq!(board.clear_lines_with_animation(), vec![14, 10, 3]);
    assert_eq!(board, Board::new());
}

#[test]
fn clear_four_rows() {
    let mut board = Board::new();
    for y in 11..15 {
        fill_row(&mut board, y, TetrominoType::I);
    }
    board.grid[10][1] = Some(TetrominoType::J);
    assert_eq!(board.clear_lines_with_animation(), vec![14, 13, 12, 11]);
    let mut expected = Board::new();
    expected.grid[14][1] = Some(TetrominoType::J);
    assert_eq!(board, expected);
}

#[test]
fn clear_never_looks_at_the_top_row() {
    let mut board = Board::new();
    fill_row(&mut board, 0, TetrominoType::I);
    let before = board;
    assert!(board.clear_lines_with_animation().is_empty());
    assert_eq!(board, before);
}

#[test]
fn clear_takes_a_full_top_row_once_it_has_moved_down() {
    let mut board = Board::new();
    fill_row(&mut board, 0, TetrominoType::I);
    fill_row(&mut board, 14, TetrominoType::O);
    assert_eq!(board.clear_lines_with_animation(), vec![14, 0]);
    assert_eq!(board, Board::new());
}

#[test]
fn clear_a_completely_full_board() {
    let mut board = Board::new();
    for y in 0..BOARD_HEIGHT {
        fill_row(&mut board, y, TetrominoType::X);
    }
    let cleared = board.clear_lines_with_animation();
    assert_eq!(cleared, (0..15).rev().collect::<Vec<usize>>());
    assert_eq!(board, Board::new());
}

#[test]
fn line_full_and_remove_line() {
    let mut board = Board::new();
    fill_row(&mut board, 7, TetrominoType::I);
    board.grid[6][0] = Some(TetrominoType::S);
    board.grid[8][9] = Some(TetrominoType::Z);
    assert!(board.is_line_full(7));
    assert!(!board.is_line_full(6));
    assert!(!board.is_line_full(0));
    board.remove_line(7);
    let mut expected = Board::new();
    expected.grid[7][0] = Some(TetrominoType::S);
    expected.grid[8][9] = Some(TetrominoType::Z);
    assert_eq!(board, expected);
    board.remove_line(0);
    assert_eq!(board, expected);
    board.remove_line(14);
    let mut expected = Board::new();
    expected.grid[8][0] = Some(TetrominoType::S);
    expected.grid[9][9] = Some(TetrominoType::Z);
    assert_eq!(board, expected);
}

#[test]
fn ghost_on_the_empty_board() {
    let board = Board::new();
    assert_eq!(board.get_ghost_position(&Tetromino::new(TetrominoType::O)), (6, 13));
    assert_eq!(board.get_ghost_position(&Tetromino::new(TetrominoType::I)), (6, 13));
    assert_eq!(board.get_ghost_position(&piece_at(TetrominoType::I, 1, 2, 4)), (2, 11));
    assert_eq!(board.get_ghost_position(&piece_at(TetrominoType::T, 2, 0, 0)), (0, 12));
}

#[test]
fn ghost_rests_on_locked_cells() {
    let mut board = Board::new();
    board.grid[10][7] = Some(TetrominoType::L);
    let piece = piece_at(TetrominoType::O, 0, 6, 3);
    assert_eq!(board.get_ghost_position(&piece), (6, 8));
    assert_eq!(board.get_ghost_position(&piece_at(TetrominoType::O, 0, 4, 3)), (4, 13));
    assert_eq!(board, {
        let mut same = Board::new();
        same.grid[10][7] = Some(TetrominoType::L);
        same
    });
    assert_eq!(piece, piece_at(TetrominoType::O, 0, 6, 3));
}

#[test]
fn ghost_of_a_piece_that_cannot_move() {
    let mut board = Board::new();
    board.grid[2][7] = Some(TetrominoType::L);
    assert_eq!(board.get_ghost_position(&piece_at(TetrominoType::O, 0, 6, 0)), (6, 0));
    assert_eq!(board.get_ghost_position(&piece_at(TetrominoType::O, 0, 6, 13)), (6, 13));
    assert_eq!(board.get_ghost_position(&piece_at(TetrominoType::O, 0, 6, 40)), (6, 40));
    assert_eq!(board.get_ghost_position(&piece_at(TetrominoType::O, 0, 6, -9)), (6, -9));
    assert_eq!(board.get_ghost_position(&piece_at(TetrominoType::O, 0, 6, i32::MAX)), (6, i32::MAX));
}

#[test]
fn ghost_does_not_ask_whether_the_piece_stands_on_a_valid_position() {
    let board = Board::new();
    // One row above the board an upright line does not fit, one row down it does.
    assert_eq!(board.get_ghost_position(&piece_at(TetrominoType::I, 1, 3, -1)), (3, 11));
}

#[test]
fn cleared_rows_were_full_and_come_from_the_bottom_up() {
    let mut board = Board::new();
    for y in [2, 5, 6, 9, 14] {
        fill_row(&mut board, y, TetrominoType::U);
    }
    board.grid[4][4] = Some(TetrominoType::T);
    board.grid[13][0] = Some(TetrominoType::S);
    let before = board;
    let cleared = board.clear_lines_with_animation();
    assert_eq!(cleared, vec![14, 9, 6, 5, 2]);
    for y in &cleared {
        assert!(before.is_line_full(*y));
    }
    let mut expected = Board::new();
    expected.grid[8][4] = Some(TetrominoType::T);
    expected.grid[14][0] = Some(TetrominoType::S);
    assert_eq!(board, expected);
}
