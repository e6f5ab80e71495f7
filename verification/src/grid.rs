//! The mathematical model of the playing field and what holds of it: which
//! positions are valid, what a lock and a sweep for full rows do to the
//! grid, and where a falling piece comes to rest.

use crate::board::{BOARD_HEIGHT, BOARD_WIDTH};
use crate::shapes::occupied;
use crate::tetromino::{lemma_geometry_nonempty, Tetromino, TetrominoType};
use vstd::prelude::*;

verus! {

/// A cell of the field: empty, or the colour tag of the piece locked there.
pub type Cell = Option<TetrominoType>;

/// The mathematical model of the field: `grid[row][col]`.
pub type Grid = Seq<Seq<Cell>>;

/// The grid has the dimensions of the field.
pub open spec fn grid_wf(grid: Grid) -> bool {
    &&& grid.len() == BOARD_HEIGHT
    &&& forall|row: int| 0 <= row < BOARD_HEIGHT ==> (#[trigger] grid[row]).len() == BOARD_WIDTH
}

/// The position lies on the field.
pub open spec fn in_bounds(col: int, row: int) -> bool {
    0 <= col < BOARD_WIDTH && 0 <= row < BOARD_HEIGHT
}

/// The position lies on the field and nothing is locked there.
pub open spec fn cell_free(grid: Grid, col: int, row: int) -> bool {
    in_bounds(col, row) && grid[row][col] is None
}

/// Every cell that the piece covers lies on the field and is empty.
pub open spec fn fits(grid: Grid, piece: Tetromino) -> bool {
    forall|col: int, row: int| #[trigger] piece.covers(col, row) ==> cell_free(grid, col, row)
}

/// A row without any locked cell.
pub open spec fn empty_row() -> Seq<Cell> {
    Seq::new(BOARD_WIDTH as nat, |col: int| None)
}

/// The field with no locked cell.
pub open spec fn empty_grid() -> Grid {
    Seq::new(BOARD_HEIGHT as nat, |row: int| empty_row())
}

/// The grid after the piece has been locked: the cells that the piece covers
/// hold its variant, all others are as before. Covered positions outside the
/// field are ignored.
pub open spec fn stamped(grid: Grid, piece: Tetromino) -> Grid {
    Seq::new(
        BOARD_HEIGHT as nat,
        |row: int|
            Seq::new(
                BOARD_WIDTH as nat,
                |col: int|
                    if piece.covers(col, row) {
                        Some(piece.tetromino_type)
                    } else {
                        grid[row][col]
                    },
            ),
    )
}

/// Every cell of the row is locked.
pub open spec fn row_full(row: Seq<Cell>) -> bool {
    forall|col: int| 0 <= col < row.len() ==> (#[trigger] row[col]) is Some
}

/// The grid with row `y` taken out and an empty row put on top: the rows
/// above `y` move down by one, the rows below stay.
pub open spec fn collapsed(grid: Grid, y: int) -> Grid {
    grid.remove(y).insert(0, empty_row())
}

/// Number of full rows among the rows `0..upto`.
pub open spec fn full_rows(grid: Grid, upto: int) -> nat
    decreases upto,
{
    if upto <= 0 {
        0
    } else {
        full_rows(grid, upto - 1) + if row_full(grid[upto - 1]) {
            1nat
        } else {
            0nat
        }
    }
}

/// The rows `0..upto` of the grid that are not full, in their order.
pub open spec fn kept_rows(grid: Grid, upto: int) -> Seq<Seq<Cell>>
    decreases upto,
{
    if upto <= 0 {
        Seq::empty()
    } else if row_full(grid[upto - 1]) {
        kept_rows(grid, upto - 1)
    } else {
        kept_rows(grid, upto - 1).push(grid[upto - 1])
    }
}

/// `count` empty rows.
pub open spec fn empty_rows(count: nat) -> Seq<Seq<Cell>> {
    Seq::new(count, |row: int| empty_row())
}

/// Number of locked cells among the first `upto` cells of a row.
pub open spec fn locked_in_row(row: Seq<Cell>, upto: int) -> nat
    decreases upto,
{
    if upto <= 0 {
        0
    } else {
        locked_in_row(row, upto - 1) + if row[upto - 1] is Some {
            1nat
        } else {
            0nat
        }
    }
}

/// Number of locked cells in the rows `0..upto` of the grid.
pub open spec fn locked_cells(grid: Grid, upto: int) -> nat
    decreases upto,
{
    if upto <= 0 {
        0
    } else {
        locked_cells(grid, upto - 1) + locked_in_row(grid[upto - 1], BOARD_WIDTH as int)
    }
}

/// The outcome of a sweep for full rows.
pub struct Sweep {
    /// The grid after the sweep.
    pub grid: Grid,
    /// The index that each cleared row had before the sweep, in the order
    /// of clearing: from the bottom up.
    pub rows: Seq<usize>,
}

/// The row indices `rows`, each `by` less: the names that rows had before
/// `by` rows below them were taken out.
pub open spec fn raised(rows: Seq<usize>, by: int) -> Seq<usize> {
    Seq::new(rows.len(), |i: int| (rows[i] - by) as usize)
}

/// Sweeps the rows `y, y - 1, .., 1` for full rows, from `y` upwards.
///
/// A full row is taken out and an empty row enters at the top, after which
/// the same index is looked at again, since the row above has moved into it.
/// Row 0 is never looked at. Every cleared row is reported by the index it
/// had in `grid`: a row found after others were taken out below it had
/// moved down by one for each of them.
pub open spec fn sweep(grid: Grid, y: int) -> Sweep
    decreases full_rows(grid, y + 1), y,
    via sweep_terminates
{
    if y <= 0 || y >= grid.len() {
        Sweep { grid, rows: Seq::empty() }
    } else if row_full(grid[y]) {
        let rest = sweep(collapsed(grid, y), y);
        Sweep { grid: rest.grid, rows: seq![y as usize] + raised(rest.rows, 1) }
    } else {
        sweep(grid, y - 1)
    }
}

#[via_fn]
proof fn sweep_terminates(grid: Grid, y: int) {
    if 0 < y < grid.len() && row_full(grid[y]) {
        lemma_collapse_full_rows(grid, y, y);
    }
}

/// Taking out row `y` moves the rows above it down by one, behind an empty
/// row: the rows `0..k + 1` of the result hold as many full rows as the rows
/// `0..k` did before.
pub proof fn lemma_collapse_full_rows(grid: Grid, y: int, k: int)
    requires
        0 <= k <= y < grid.len(),
    ensures
        full_rows(collapsed(grid, y), k + 1) == full_rows(grid, k),
    decreases k,
{
    let after = collapsed(grid, y);
    if k == 0 {
        assert(empty_row()[0] is None);
        assert(full_rows(after, 0) == 0);
    } else {
        lemma_collapse_full_rows(grid, y, k - 1);
    }
}

/// The row at which a piece that stands at row `y` comes to rest when it
/// falls: it descends one row at a time for as long as the next row down is
/// a valid position.
pub open spec fn landing_row(grid: Grid, piece: Tetromino, y: int) -> int
    decreases BOARD_HEIGHT - y,
{
    if i32::MIN <= y < BOARD_HEIGHT && fits(grid, piece.at(piece.x, (y + 1) as i32)) {
        landing_row(grid, piece, y + 1)
    } else {
        y
    }
}

/// A falling piece comes to rest at or below the row it started from, and
/// not below the field unless it started there. Every row that it passes
/// through is a valid position, and the row under the one it rests on is
/// not, or lies below the field.
pub proof fn lemma_landing_row_bounds(grid: Grid, piece: Tetromino, y: int)
    requires
        i32::MIN <= y <= i32::MAX,
    ensures
        y <= landing_row(grid, piece, y),
        landing_row(grid, piece, y) <= if y < BOARD_HEIGHT {
            BOARD_HEIGHT as int
        } else {
            y
        },
        forall|row: int|
            y < row <= landing_row(grid, piece, y) ==> fits(
                grid,
                #[trigger] piece.at(piece.x, row as i32),
            ),
        landing_row(grid, piece, y) >= BOARD_HEIGHT || !fits(
            grid,
            piece.at(piece.x, (landing_row(grid, piece, y) + 1) as i32),
        ),
    decreases BOARD_HEIGHT - y,
{
    if y < BOARD_HEIGHT && fits(grid, piece.at(piece.x, (y + 1) as i32)) {
        lemma_landing_row_bounds(grid, piece, y + 1);
    }
}

/// A sweep keeps the dimensions of the field and clears no more rows than
/// are full. Every row that it reports lies among the rows `0..=y` and was
/// full before the sweep, and the reported indices fall strictly: no row is
/// reported twice, and the lowest comes first.
pub proof fn lemma_sweep_bounds(grid: Grid, y: int)
    requires
        grid_wf(grid),
        y < BOARD_HEIGHT,
    ensures
        grid_wf(sweep(grid, y).grid),
        sweep(grid, y).rows.len() <= full_rows(grid, y + 1) <= BOARD_HEIGHT,
        forall|i: int|
            0 <= i < sweep(grid, y).rows.len() ==> (#[trigger] sweep(grid, y).rows[i]) <= y
                && row_full(grid[sweep(grid, y).rows[i] as int]),
        forall|i: int, j: int|
            0 <= i < j < sweep(grid, y).rows.len() ==> sweep(grid, y).rows[i] > sweep(
                grid,
                y,
            ).rows[j],
    decreases full_rows(grid, y + 1), y,
{
    lemma_full_rows_bound(grid, y + 1);
    if y <= 0 {
    } else if row_full(grid[y]) {
        let after = collapsed(grid, y);
        lemma_collapse_full_rows(grid, y, y);
        lemma_sweep_bounds(after, y);
        let rest = sweep(after, y);
        let rows = sweep(grid, y).rows;
        assert(empty_row()[0] is None);
        assert(!row_full(after[0]));
        assert forall|i: int| 0 <= i < rows.len() implies (#[trigger] rows[i]) <= y && row_full(
            grid[rows[i] as int],
        ) by {
            if i > 0 {
                let found = rest.rows[i - 1];
                assert(row_full(after[found as int]));
                assert(after[found as int] == grid[found - 1]);
            }
        }
        assert forall|i: int, j: int| 0 <= i < j < rows.len() implies rows[i] > rows[j] by {
            let lower = rest.rows[j - 1];
            assert(row_full(after[lower as int]));
            if i > 0 {
                let upper = rest.rows[i - 1];
                assert(row_full(after[upper as int]));
            }
        }
    } else {
        lemma_sweep_bounds(grid, y - 1);
    }
}

/// The step of a sweep in the names of an earlier grid: where `by` rows
/// have already been taken out, clearing the full row `y` reports it as
/// `y - by`, and what the rest of the sweep reports is named `by + 1` less.
pub proof fn lemma_sweep_step_raised(grid: Grid, y: int, by: int)
    requires
        grid_wf(grid),
        0 <= by <= y < BOARD_HEIGHT,
        0 < y,
        row_full(grid[y]),
    ensures
        raised(sweep(grid, y).rows, by) == seq![(y - by) as usize] + raised(
            sweep(collapsed(grid, y), y).rows,
            by + 1,
        ),
{
    let after = collapsed(grid, y);
    let rest = sweep(after, y);
    lemma_sweep_bounds(after, y);
    assert(empty_row()[0] is None);
    assert(!row_full(after[0]));
    let left = raised(sweep(grid, y).rows, by);
    let right = seq![(y - by) as usize] + raised(rest.rows, by + 1);
    assert(left.len() == right.len());
    assert forall|i: int| 0 <= i < left.len() implies left[i] == right[i] by {
        if i > 0 {
            let found = rest.rows[i - 1];
            assert(row_full(after[found as int]));
            assert(found >= 1);
        }
    }
    assert(left =~= right);
}

/// Among the rows `0..upto` there are at most `upto` full ones.
pub proof fn lemma_full_rows_bound(grid: Grid, upto: int)
    ensures
        full_rows(grid, upto) <= if upto > 0 {
            upto
        } else {
            0
        },
    decreases upto,
{
    if upto > 0 {
        lemma_full_rows_bound(grid, upto - 1);
    }
}

/// A position is invalid exactly if some cell that the piece covers lies
/// outside the field or on a locked cell.
pub proof fn lemma_fits_iff_no_blocked_cell(grid: Grid, piece: Tetromino)
    ensures
        !fits(grid, piece) <==> exists|col: int, row: int|
            #[trigger] piece.covers(col, row) && (!in_bounds(col, row) || grid[row][col] is Some),
{
    if !fits(grid, piece) {
        let (col, row) = choose|col: int, row: int| #[trigger]
            piece.covers(col, row) && !cell_free(grid, col, row);
    }
}

/// A well-formed piece fits only with its anchor near the field: at most
/// two columns or rows before it, and not behind its last column or row.
pub proof fn lemma_fit_bounds(grid: Grid, piece: Tetromino)
    requires
        piece.wf(),
        fits(grid, piece),
    ensures
        -2 <= piece.x < BOARD_WIDTH,
        -2 <= piece.y < BOARD_HEIGHT,
{
    lemma_geometry_nonempty(piece.tetromino_type, piece.rotation as int);
    if occupied(piece.blocks, 1, 1) {
        assert(piece.covers(piece.x + 1, piece.y + 1));
    } else if occupied(piece.blocks, 2, 1) {
        assert(piece.covers(piece.x + 1, piece.y + 2));
    } else if occupied(piece.blocks, 1, 2) {
        assert(piece.covers(piece.x + 2, piece.y + 1));
    } else {
        assert(piece.covers(piece.x + 1, piece.y as int));
    }
}

/// A well-formed piece that falls from a row of the field comes to rest on
/// a row of the field.
pub proof fn lemma_landing_row_on_field(grid: Grid, piece: Tetromino, y: int)
    requires
        piece.wf(),
        i32::MIN <= y < BOARD_HEIGHT,
    ensures
        landing_row(grid, piece, y) < BOARD_HEIGHT,
    decreases BOARD_HEIGHT - y,
{
    let lower = piece.at(piece.x, (y + 1) as i32);
    if fits(grid, lower) {
        lemma_fit_bounds(grid, lower);
        lemma_landing_row_on_field(grid, piece, y + 1);
    }
}

/// A piece that can descend exactly `k` rows, one valid position after the
/// other, before the next row down is invalid, comes to rest `k` rows down.
pub proof fn lemma_landing_row_after_descent(grid: Grid, piece: Tetromino, k: int)
    requires
        piece.wf(),
        0 <= k,
        piece.y + k + 1 <= i32::MAX,
        forall|row: int|
            piece.y < row <= piece.y + k ==> fits(grid, #[trigger] piece.at(piece.x, row as i32)),
        !fits(grid, piece.at(piece.x, (piece.y + k + 1) as i32)),
    ensures
        landing_row(grid, piece, piece.y as int) == piece.y + k,
{
    lemma_landing_row_from(grid, piece, piece.y as int, k);
}

proof fn lemma_landing_row_from(grid: Grid, piece: Tetromino, y: int, k: int)
    requires
        piece.wf(),
        0 <= k,
        i32::MIN <= y,
        y + k + 1 <= i32::MAX,
        forall|row: int| y < row <= y + k ==> fits(grid, #[trigger] piece.at(piece.x, row as i32)),
        !fits(grid, piece.at(piece.x, (y + k + 1) as i32)),
    ensures
        landing_row(grid, piece, y) == y + k,
    decreases k,
{
    if k > 0 {
        let lower = piece.at(piece.x, (y + 1) as i32);
        lemma_fit_bounds(grid, lower);
        lemma_landing_row_from(grid, piece, y + 1, k - 1);
    }
}

/// Stamping a piece keeps the dimensions of the field and changes no cell
/// but those that the piece covers.
pub proof fn lemma_stamped(grid: Grid, piece: Tetromino)
    ensures
        grid_wf(stamped(grid, piece)),
        forall|col: int, row: int|
            in_bounds(col, row) ==> #[trigger] stamped(grid, piece)[row][col] == if piece.covers(
                col,
                row,
            ) {
                Some(piece.tetromino_type)
            } else {
                grid[row][col]
            },
{
}

/// Without a full row among the rows `1..=y`, a sweep finds nothing and
/// leaves the grid as it is.
pub proof fn lemma_sweep_without_full_row(grid: Grid, y: int)
    requires
        forall|row: int| 1 <= row <= y ==> !row_full(#[trigger] grid[row]),
    ensures
        sweep(grid, y) == (Sweep { grid, rows: Seq::empty() }),
    decreases y,
{
    if 0 < y < grid.len() {
        lemma_sweep_without_full_row(grid, y - 1);
    }
}

/// Where locking a piece completes no row, the sweep that follows finds
/// nothing and leaves the field as the lock left it: changed in the cells
/// that the piece covers and nowhere else.
pub proof fn lemma_lock_without_full_row(grid: Grid, piece: Tetromino)
    requires
        forall|row: int| 1 <= row < BOARD_HEIGHT ==> !row_full(#[trigger] stamped(grid, piece)[row]),
    ensures
        sweep(stamped(grid, piece), BOARD_HEIGHT - 1).rows == Seq::<usize>::empty(),
        sweep(stamped(grid, piece), BOARD_HEIGHT - 1).grid == stamped(grid, piece),
        forall|col: int, row: int|
            in_bounds(col, row) && !piece.covers(col, row) ==> #[trigger] sweep(
                stamped(grid, piece),
                BOARD_HEIGHT - 1,
            ).grid[row][col] == grid[row][col],
{
    lemma_sweep_without_full_row(stamped(grid, piece), BOARD_HEIGHT - 1);
}

/// A sweep leaves no full row behind among the rows that it looked at, and
/// does not touch the rows below them.
pub proof fn lemma_sweep_leaves_no_full_row(grid: Grid, y: int)
    requires
        grid_wf(grid),
        y < BOARD_HEIGHT,
    ensures
        forall|row: int| 1 <= row <= y ==> !row_full(#[trigger] sweep(grid, y).grid[row]),
        forall|row: int| y < row < BOARD_HEIGHT ==> #[trigger] sweep(grid, y).grid[row] == grid[row],
    decreases full_rows(grid, y + 1), y,
{
    if y <= 0 {
    } else if row_full(grid[y]) {
        let after = collapsed(grid, y);
        lemma_collapse_full_rows(grid, y, y);
        lemma_sweep_leaves_no_full_row(after, y);
        assert(sweep(grid, y).grid == sweep(after, y).grid);
    } else {
        lemma_sweep_leaves_no_full_row(grid, y - 1);
        assert(sweep(grid, y).grid == sweep(grid, y - 1).grid);
    }
}

/// A full row of the field holds as many locked cells as the field is wide,
/// an empty row none.
pub proof fn lemma_locked_in_row(row: Seq<Cell>, upto: int)
    requires
        0 <= upto <= row.len(),
    ensures
        locked_in_row(row, upto) <= upto,
        row_full(row) ==> locked_in_row(row, upto) == upto,
        row == empty_row() && upto <= BOARD_WIDTH ==> locked_in_row(row, upto) == 0,
    decreases upto,
{
    if upto > 0 {
        lemma_locked_in_row(row, upto - 1);
    }
}

/// Taking a row out removes its locked cells from the field and no others.
pub proof fn lemma_collapse_locked_cells(grid: Grid, y: int)
    requires
        grid_wf(grid),
        0 <= y < BOARD_HEIGHT,
    ensures
        locked_cells(collapsed(grid, y), BOARD_HEIGHT as int) + locked_in_row(
            grid[y],
            BOARD_WIDTH as int,
        ) == locked_cells(grid, BOARD_HEIGHT as int),
{
    lemma_collapse_locked_upper(grid, y, y);
    lemma_collapse_locked_lower(grid, y, BOARD_HEIGHT as int);
}

proof fn lemma_collapse_locked_upper(grid: Grid, y: int, k: int)
    requires
        grid_wf(grid),
        0 <= k <= y < BOARD_HEIGHT,
    ensures
        locked_cells(collapsed(grid, y), k + 1) == locked_cells(grid, k),
    decreases k,
{
    let after = collapsed(grid, y);
    if k == 0 {
        lemma_locked_in_row(after[0], BOARD_WIDTH as int);
        assert(locked_cells(after, 0) == 0);
    } else {
        lemma_collapse_locked_upper(grid, y, k - 1);
    }
}

proof fn lemma_collapse_locked_lower(grid: Grid, y: int, k: int)
    requires
        grid_wf(grid),
        0 <= y < k <= BOARD_HEIGHT,
    ensures
        locked_cells(collapsed(grid, y), k) + locked_in_row(grid[y], BOARD_WIDTH as int)
            == locked_cells(grid, k),
    decreases k,
{
    if k == y + 1 {
        lemma_collapse_locked_upper(grid, y, y);
    } else {
        lemma_collapse_locked_lower(grid, y, k - 1);
    }
}

/// Every row that a sweep clears takes as many locked cells off the field
/// as the field is wide; nothing else changes the count.
pub proof fn lemma_sweep_locked_cells(grid: Grid, y: int)
    requires
        grid_wf(grid),
        y < BOARD_HEIGHT,
    ensures
        locked_cells(sweep(grid, y).grid, BOARD_HEIGHT as int) + BOARD_WIDTH * sweep(
            grid,
            y,
        ).rows.len() == locked_cells(grid, BOARD_HEIGHT as int),
    decreases full_rows(grid, y + 1), y,
{
    if y <= 0 {
    } else if row_full(grid[y]) {
        lemma_collapse_full_rows(grid, y, y);
        lemma_collapse_locked_cells(grid, y);
        lemma_locked_in_row(grid[y], BOARD_WIDTH as int);
        lemma_sweep_bounds(grid, y);
        let after = collapsed(grid, y);
        lemma_sweep_locked_cells(after, y);
    } else {
        lemma_sweep_locked_cells(grid, y - 1);
    }
}

/// Where the bottom row is the only full row of the field, a sweep of the
/// whole field finds it and nothing else: the row goes, every other row
/// moves down by one behind a new empty row at the top, and the field holds
/// as many locked cells less as it is wide.
pub proof fn lemma_sweep_bottom_row(grid: Grid)
    requires
        grid_wf(grid),
        row_full(grid[BOARD_HEIGHT - 1]),
        forall|row: int| 0 <= row < BOARD_HEIGHT - 1 ==> !row_full(#[trigger] grid[row]),
    ensures
        sweep(grid, BOARD_HEIGHT - 1).rows == seq![(BOARD_HEIGHT - 1) as usize],
        sweep(grid, BOARD_HEIGHT - 1).grid == collapsed(grid, BOARD_HEIGHT - 1),
        sweep(grid, BOARD_HEIGHT - 1).grid[0] == empty_row(),
        forall|row: int|
            1 <= row < BOARD_HEIGHT ==> #[trigger] sweep(grid, BOARD_HEIGHT - 1).grid[row]
                == grid[row - 1],
        locked_cells(sweep(grid, BOARD_HEIGHT - 1).grid, BOARD_HEIGHT as int) + BOARD_WIDTH
            == locked_cells(grid, BOARD_HEIGHT as int),
{
    let y = BOARD_HEIGHT - 1;
    let after = collapsed(grid, y);
    lemma_sweep_without_full_row(after, y);
    lemma_sweep_locked_cells(grid, y);
}

/// Taking out row `y` puts an empty row before the rows `0..k` that are
/// kept, for every `k` up to `y`.
proof fn lemma_collapse_kept_rows(grid: Grid, y: int, k: int)
    requires
        0 <= k <= y < grid.len(),
    ensures
        kept_rows(collapsed(grid, y), k + 1) == seq![empty_row()] + kept_rows(grid, k),
    decreases k,
{
    let after = collapsed(grid, y);
    assert(empty_row()[0] is None);
    if k == 0 {
        assert(kept_rows(after, 0) =~= Seq::<Seq<Cell>>::empty());
    } else {
        lemma_collapse_kept_rows(grid, y, k - 1);
    }
}

/// Where none of the rows `0..k` is full, all of them are kept.
proof fn lemma_kept_rows_without_full_row(grid: Grid, k: int)
    requires
        0 <= k <= grid.len(),
        forall|row: int| 0 <= row < k ==> !row_full(#[trigger] grid[row]),
    ensures
        kept_rows(grid, k) == grid.subrange(0, k),
    decreases k,
{
    if k > 0 {
        lemma_kept_rows_without_full_row(grid, k - 1);
    }
}

/// Where none of the rows `0..k` is full, the count of full rows among them
/// is zero.
proof fn lemma_full_rows_without_full_row(grid: Grid, k: int)
    requires
        forall|row: int| 0 <= row < k ==> !row_full(#[trigger] grid[row]),
    ensures
        full_rows(grid, k) == 0,
    decreases k,
{
    if k > 0 {
        lemma_full_rows_without_full_row(grid, k - 1);
    }
}

/// A sweep that finds a full row compacts the field: all full rows among
/// the rows `0..=y` go, the rows that are kept stay in their order and sink
/// to the rows below them, and as many empty rows as were cleared fill the
/// top. A sweep that finds nothing changes nothing.
pub proof fn lemma_sweep_compacts(grid: Grid, y: int)
    requires
        grid_wf(grid),
        0 <= y < BOARD_HEIGHT,
    ensures
        sweep(grid, y).rows.len() == 0 ==> sweep(grid, y).grid == grid,
        sweep(grid, y).rows.len() > 0 ==> sweep(grid, y).rows.len() == full_rows(grid, y + 1),
        sweep(grid, y).rows.len() > 0 ==> sweep(grid, y).grid == empty_rows(
            sweep(grid, y).rows.len(),
        ) + kept_rows(grid, y + 1) + grid.subrange(y + 1, BOARD_HEIGHT as int),
    decreases full_rows(grid, y + 1), y,
{
    let height = BOARD_HEIGHT as int;
    let swept = sweep(grid, y);
    if y == 0 {
    } else if row_full(grid[y]) {
        let after = collapsed(grid, y);
        lemma_collapse_full_rows(grid, y, y);
        lemma_collapse_kept_rows(grid, y, y);
        lemma_sweep_compacts(after, y);
        let rest = sweep(after, y);
        let found = rest.rows.len();
        if found == 0 {
            lemma_sweep_leaves_no_full_row(after, y);
            assert(empty_row()[0] is None);
            lemma_kept_rows_without_full_row(after, y + 1);
            lemma_full_rows_without_full_row(after, y + 1);
            assert(empty_rows(1) =~= seq![empty_row()]);
            assert(swept.grid =~= empty_rows(1) + kept_rows(grid, y + 1) + grid.subrange(
                y + 1,
                height,
            ));
        } else {
            assert(swept.grid =~= empty_rows((found + 1) as nat) + kept_rows(grid, y + 1)
                + grid.subrange(y + 1, height));
        }
    } else {
        lemma_sweep_compacts(grid, y - 1);
        if swept.rows.len() > 0 {
            assert(swept.grid =~= empty_rows(swept.rows.len()) + kept_rows(grid, y + 1)
                + grid.subrange(y + 1, height));
        }
    }
}

} // verus!
