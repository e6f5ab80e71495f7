//! The playing field: a fixed grid of cells, each empty or holding the
//! variant of the piece that was locked there.
//!
//! Rows are numbered from the top; row `BOARD_HEIGHT - 1` is the bottom.

use crate::grid::{
    cell_free, collapsed, empty_grid, empty_row, empty_rows, fits, full_rows, in_bounds,
    kept_rows, landing_row, lemma_sweep_step_raised, raised, lemma_collapse_full_rows, lemma_landing_row_bounds, lemma_sweep_bounds,
    lemma_sweep_compacts, lemma_sweep_leaves_no_full_row, lemma_sweep_locked_cells, locked_cells,
    grid_wf, row_full, stamped, sweep, Cell, Grid,
};
use crate::shapes::{occupied, SHAPE_SIZE};
use crate::tetromino::{Tetromino, TetrominoType};
use vstd::prelude::*;

verus! {

/// Number of columns of the field.
pub const BOARD_WIDTH: usize = 10;

/// Number of rows of the field.
pub const BOARD_HEIGHT: usize = 15;

/// The field.
#[derive(Debug, Clone, Copy, PartialEq, Eq)]
pub struct Board {
    pub grid: [[Option<TetrominoType>; BOARD_WIDTH]; BOARD_HEIGHT],
}

impl View for Board {
    type V = Grid;

    open spec fn view(&self) -> Grid {
        Seq::new(BOARD_HEIGHT as nat, |row: int| self.grid[row]@)
    }
}

impl Board {
    /// The model of a field always has the field's dimensions.
    pub proof fn lemma_view_wf(self)
        ensures
            grid_wf(self@),
    {
    }

    /// Two fields with the same model are the same field.
    pub proof fn lemma_view_injective(self, other: Board)
        requires
            self@ == other@,
        ensures
            self == other,
    {
        assert forall|row: int| 0 <= row < BOARD_HEIGHT implies self.grid[row] == other.grid[row] by {
            assert(self@[row] == other@[row]);
        }
        assert(self.grid =~= other.grid);
    }

    /// Creates a field with no locked cell.
    pub fn new() -> (board: Board)
        ensures
            board@ == empty_grid(),
    {
        let board = Board { grid: [[None; BOARD_WIDTH]; BOARD_HEIGHT] };
        assert(board@ =~~= empty_grid());
        board
    }

    /// Empties every cell; the dimensions stay.
    pub fn clear(&mut self)
        ensures
            final(self)@ == empty_grid(),
    {
        self.grid = [[None; BOARD_WIDTH]; BOARD_HEIGHT];
        assert(self@ =~~= empty_grid());
    }

    /// Tells whether the piece can be where it is: no cell that it covers
    /// lies outside the field or on a locked cell.
    pub fn is_valid_position(&self, tetromino: &Tetromino) -> (valid: bool)
        ensures
            valid == fits(self@, *tetromino),
    {
        let piece = *tetromino;
        for row in 0..SHAPE_SIZE
            invariant
                piece == *tetromino,
                forall|c: int, r: int|
                    0 <= r < row && #[trigger] occupied(piece.blocks, r, c) ==> cell_free(
                        self@,
                        piece.x + c,
                        piece.y + r,
                    ),
        {
            for col in 0..SHAPE_SIZE
                invariant
                    piece == *tetromino,
                    0 <= row < SHAPE_SIZE,
                    forall|c: int, r: int|
                        0 <= r < row && #[trigger] occupied(piece.blocks, r, c) ==> cell_free(
                            self@,
                            piece.x + c,
                            piece.y + r,
                        ),
                    forall|c: int|
                        0 <= c < col && #[trigger] occupied(piece.blocks, row as int, c)
                            ==> cell_free(self@, piece.x + c, piece.y + row),
            {
                if piece.blocks[row][col] {
                    let board_x: i64 = piece.x as i64 + col as i64;
                    let board_y: i64 = piece.y as i64 + row as i64;
                    let inside = 0 <= board_x && board_x < BOARD_WIDTH as i64 && 0 <= board_y
                        && board_y < BOARD_HEIGHT as i64;
                    if !inside || self.grid[board_y as usize][board_x as usize].is_some() {
                        proof {
                            assert(piece.covers(piece.x + col, piece.y + row));
                        }
                        return false;
                    }
                }
            }
        }
        true
    }

    /// Locks the piece into the field: every cell that it covers takes the
    /// piece's variant as its colour tag. Covered positions outside the field
    /// are skipped.
    pub fn place_tetromino(&mut self, tetromino: &Tetromino)
        ensures
            final(self)@ == stamped(old(self)@, *tetromino),
    {
        let piece = *tetromino;
        for row in 0..SHAPE_SIZE
            invariant
                piece == *tetromino,
                forall|r: int, c: int|
                    in_bounds(c, r) ==> #[trigger] self@[r][c] == if piece.covers(c, r) && r
                        < piece.y + row {
                        Some(piece.tetromino_type)
                    } else {
                        old(self)@[r][c]
                    },
        {
            for col in 0..SHAPE_SIZE
                invariant
                    piece == *tetromino,
                    0 <= row < SHAPE_SIZE,
                    forall|r: int, c: int|
                        in_bounds(c, r) ==> #[trigger] self@[r][c] == if piece.covers(c, r) && (r
                            < piece.y + row || (r == piece.y + row && c < piece.x + col)) {
                            Some(piece.tetromino_type)
                        } else {
                            old(self)@[r][c]
                        },
            {
                if piece.blocks[row][col] {
                    let board_x: i64 = piece.x as i64 + col as i64;
                    let board_y: i64 = piece.y as i64 + row as i64;
                    if 0 <= board_x && board_x < BOARD_WIDTH as i64 && 0 <= board_y && board_y
                        < BOARD_HEIGHT as i64 {
                        let ghost before = self@;
                        self.grid[board_y as usize][board_x as usize] = Some(piece.tetromino_type);
                        proof {
                            assert forall|r: int, c: int| in_bounds(c, r) implies #[trigger] self@[r][c]
                                == if r == board_y && c == board_x {
                                Some(piece.tetromino_type)
                            } else {
                                before[r][c]
                            } by {}
                        }
                    }
                }
            }
        }
        assert(self@ =~~= stamped(old(self)@, piece));
    }

    /// Tells whether every cell of row `y` is locked.
    pub fn is_line_full(&self, y: usize) -> (full: bool)
        requires
            y < BOARD_HEIGHT,
        ensures
            full == row_full(self@[y as int]),
    {
        for col in 0..BOARD_WIDTH
            invariant
                y < BOARD_HEIGHT,
                forall|c: int| 0 <= c < col ==> (#[trigger] self@[y as int][c]) is Some,
        {
            if self.grid[y][col].is_none() {
                return false;
            }
        }
        true
    }

    /// Takes row `y` out, moves the rows above it down by one and puts an
    /// empty row on top.
    pub fn remove_line(&mut self, y: usize)
        requires
            y < BOARD_HEIGHT,
        ensures
            final(self)@ == collapsed(old(self)@, y as int),
    {
        let mut row = y;
        while row > 0
            invariant
                row <= y < BOARD_HEIGHT,
                forall|r: int| 0 <= r <= row ==> #[trigger] self@[r] == old(self)@[r],
                forall|r: int| row < r <= y ==> #[trigger] self@[r] == old(self)@[r - 1],
                forall|r: int| y < r < BOARD_HEIGHT ==> #[trigger] self@[r] == old(self)@[r],
            decreases row,
        {
            let ghost before = self@;
            self.grid[row] = self.grid[row - 1];
            proof {
                assert forall|r: int| 0 <= r < BOARD_HEIGHT implies #[trigger] self@[r] == if r
                    == row {
                    before[row - 1]
                } else {
                    before[r]
                } by {}
            }
            row -= 1;
        }
        let ghost before = self@;
        self.grid[0] = [None; BOARD_WIDTH];
        proof {
            assert(self@[0] =~= empty_row());
            assert forall|r: int| 0 < r < BOARD_HEIGHT implies #[trigger] self@[r] == before[r] by {}
        }
    }

    /// Removes the full rows and reports how many there were. The field ends
    /// up as after [`Board::clear_lines_with_animation`].
    pub fn clear_lines(&mut self) -> (lines_cleared: usize)
        ensures
            final(self)@ == sweep(old(self)@, BOARD_HEIGHT - 1).grid,
            lines_cleared == sweep(old(self)@, BOARD_HEIGHT - 1).rows.len(),
    {
        let cleared = self.clear_lines_with_animation();
        cleared.len()
    }

    /// Sweeps the field for full rows from the bottom row up to row 1. Each
    /// full row is removed, the rows above it drop by one and an empty row
    /// enters at the top. Returns the indices of the cleared rows as they
    /// were before the call, from the bottom up; the contents of the rows
    /// are dropped. Where any row is cleared, all full rows are.
    pub fn clear_lines_with_animation(&mut self) -> (cleared_lines: Vec<usize>)
        ensures
            final(self)@ == sweep(old(self)@, BOARD_HEIGHT - 1).grid,
            cleared_lines@ == sweep(old(self)@, BOARD_HEIGHT - 1).rows,
            cleared_lines@.len() <= BOARD_HEIGHT,
            forall|i: int|
                0 <= i < cleared_lines@.len() ==> (#[trigger] cleared_lines@[i]) < BOARD_HEIGHT
                    && row_full(old(self)@[cleared_lines@[i] as int]),
            forall|i: int, j: int|
                0 <= i < j < cleared_lines@.len() ==> cleared_lines@[i] > cleared_lines@[j],
            cleared_lines@.len() > 0 ==> cleared_lines@.len() == full_rows(
                old(self)@,
                BOARD_HEIGHT as int,
            ),
            forall|row: int| 1 <= row < BOARD_HEIGHT ==> !row_full(#[trigger] final(self)@[row]),
            locked_cells(final(self)@, BOARD_HEIGHT as int) + BOARD_WIDTH * cleared_lines@.len()
                == locked_cells(old(self)@, BOARD_HEIGHT as int),
            cleared_lines@.len() == 0 ==> final(self)@ == old(self)@,
            cleared_lines@.len() > 0 ==> final(self)@ == empty_rows(cleared_lines@.len())
                + kept_rows(old(self)@, BOARD_HEIGHT as int),
    {
        proof {
            lemma_sweep_bounds(self@, BOARD_HEIGHT - 1);
            lemma_sweep_leaves_no_full_row(self@, BOARD_HEIGHT - 1);
            lemma_sweep_locked_cells(self@, BOARD_HEIGHT - 1);
            lemma_sweep_compacts(self@, BOARD_HEIGHT - 1);
            assert(self@.subrange(BOARD_HEIGHT as int, BOARD_HEIGHT as int) =~= Seq::<
                Seq<Cell>,
            >::empty());
        }
        let mut cleared_lines: Vec<usize> = Vec::new();
        let mut y: usize = BOARD_HEIGHT - 1;
        let ghost target = sweep(old(self)@, BOARD_HEIGHT - 1);
        assert(raised(target.rows, 0) =~= target.rows);
        while y > 0
            invariant
                y < BOARD_HEIGHT,
                cleared_lines@.len() <= BOARD_HEIGHT,
                forall|row: int|
                    0 <= row < cleared_lines@.len() && row < BOARD_HEIGHT ==> !row_full(
                        #[trigger] self@[row],
                    ),
                target.grid == sweep(self@, y as int).grid,
                target.rows == cleared_lines@ + raised(
                    sweep(self@, y as int).rows,
                    cleared_lines@.len() as int,
                ),
            decreases full_rows(self@, y + 1), y,
        {
            if self.is_line_full(y) {
                let found = cleared_lines.len();
                proof {
                    lemma_collapse_full_rows(self@, y as int, y as int);
                    lemma_sweep_step_raised(self@, y as int, found as int);
                    assert(empty_row()[0] is None);
                    assert forall|row: int| 0 <= row <= found && row < BOARD_HEIGHT implies !row_full(
                        #[trigger] collapsed(self@, y as int)[row],
                    ) by {
                        if row > 0 {
                            assert(collapsed(self@, y as int)[row] == self@[row - 1]);
                        }
                    }
                }
                cleared_lines.push(y - found);
                self.remove_line(y);
            } else {
                y -= 1;
            }
        }
        assert(raised(sweep(self@, 0).rows, cleared_lines@.len() as int) =~= Seq::<usize>::empty());
        cleared_lines
    }

    /// Finds where the piece would come to rest if it fell straight down:
    /// the piece's column and the last row it can reach by single-row
    /// descents that each end on a valid position. Neither the field nor the
    /// piece changes.
    pub fn get_ghost_position(&self, tetromino: &Tetromino) -> (position: (i32, i32))
        ensures
            position.0 == tetromino.x,
            position.1 == landing_row(self@, *tetromino, tetromino.y as int),
            position.1 >= tetromino.y,
            forall|row: int|
                tetromino.y < row <= position.1 ==> fits(
                    self@,
                    #[trigger] tetromino.at(tetromino.x, row as i32),
                ),
            position.1 >= BOARD_HEIGHT || !fits(
                self@,
                tetromino.at(tetromino.x, (position.1 + 1) as i32),
            ),
    {
        proof {
            lemma_landing_row_bounds(self@, *tetromino, tetromino.y as int);
        }
        let mut ghost_y: i32 = tetromino.y;
        while ghost_y < BOARD_HEIGHT as i32
            invariant
                landing_row(self@, *tetromino, tetromino.y as int) == landing_row(
                    self@,
                    *tetromino,
                    ghost_y as int,
                ),
            ensures
                landing_row(self@, *tetromino, ghost_y as int) == ghost_y,
            decreases BOARD_HEIGHT - ghost_y,
        {
            let mut test_tetromino = *tetromino;
            test_tetromino.y = ghost_y + 1;
            if !self.is_valid_position(&test_tetromino) {
                break ;
            }
            ghost_y += 1;
        }
        (tetromino.x, ghost_y)
    }
}

} // verus!
