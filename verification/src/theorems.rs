//! What holds of every game: the invariant that the commands keep, and the
//! laws of the single commands.

use crate::board::{BOARD_HEIGHT, BOARD_WIDTH};
use crate::grid::{
    cell_free, empty_grid, fits, grid_wf, landing_row, lemma_landing_row_after_descent,
    lemma_landing_row_bounds, lemma_stamped, lemma_sweep_bounds, stamped, sweep, Grid,
};
use crate::config::{INITIAL_DROP_INTERVAL, MIN_DROP_INTERVAL};
use crate::game::{can_move, moved_if_valid, rotated_with_kick, timer_after, GameState, GameView};
use crate::scoring::{
    capped, drop_interval_of, hard_drop_bonus, lemma_drop_interval_bounds, lemma_level_monotonic,
    level_of, line_score,
};
use crate::shapes::occupied;
use crate::tetromino::{
    lemma_four_rotations_restore, lemma_rotated_wf, Tetromino, TetrominoType,
};
use vstd::prelude::*;

verus! {

impl GameView {
    /// The invariant of a game: the field has its dimensions, the pieces are
    /// as the table draws them, the buffered piece waits at the spawn
    /// position, a piece in play is on a valid position, and level and drop
    /// interval are those of the total of cleared rows.
    pub open spec fn inv(self) -> bool {
        &&& self.inv_around_piece()
        &&& self.current_tetromino matches Some(piece) ==> piece.wf()
        &&& self.in_session() ==> (self.current_tetromino matches Some(piece) ==> fits(
            self.board,
            piece,
        ))
    }

    /// The part of the invariant that does not speak of the falling piece.
    pub open spec fn inv_around_piece(self) -> bool {
        &&& grid_wf(self.board)
        &&& self.next_tetromino == Tetromino::spawned(self.next_tetromino.tetromino_type)
        &&& self.level == level_of(self.lines_cleared as int)
        &&& self.drop_interval == drop_interval_of(self.level as int)
    }

    /// The game is in play or paused.
    pub open spec fn in_session(self) -> bool {
        self.state == GameState::Playing || self.state == GameState::Paused
    }

    /// No counter of `self` is ahead of `later`: score, cleared rows and
    /// level have not fallen, and the drop interval has not grown.
    pub open spec fn not_ahead_of(self, later: GameView) -> bool {
        &&& self.score <= later.score
        &&& self.lines_cleared <= later.lines_cleared
        &&& self.level <= later.level
        &&& self.drop_interval >= later.drop_interval
    }
}

/// A game that has not started meets the invariant.
pub proof fn lemma_initial_inv(next: TetrominoType)
    ensures
        GameView::initial(next).inv(),
{
}

/// A fresh piece fits on the empty field.
pub proof fn lemma_spawn_fits_empty_field(variant: TetrominoType)
    ensures
        fits(empty_grid(), Tetromino::spawned(variant)),
{
}

/// After a reset the game is in play on an empty field, with fresh pieces
/// of the two variants, the counters at their start, and the invariant met.
pub proof fn lemma_reset(first: TetrominoType, upcoming: TetrominoType)
    ensures
        GameView::reset(first, upcoming) == (GameView {
            current_tetromino: Some(Tetromino::spawned(first)),
            next_tetromino: Tetromino::spawned(upcoming),
            state: GameState::Playing,
            ..GameView::initial(first)
        }),
        GameView::reset(first, upcoming).inv(),
{
    lemma_spawn_fits_empty_field(first);
}

/// When a piece enters, the invariant holds, whatever piece was there
/// before; the game is over exactly if the entering piece is not on a valid
/// position, or was over before.
pub proof fn lemma_spawn(game: GameView, upcoming: TetrominoType)
    requires
        game.inv_around_piece(),
    ensures
        game.spawn(upcoming).inv(),
        game.not_ahead_of(game.spawn(upcoming)),
        !fits(game.board, game.next_tetromino) ==> game.spawn(upcoming).state
            == GameState::GameOver,
        fits(game.board, game.next_tetromino) ==> game.spawn(upcoming).state == game.state,
{
}

/// Crediting cleared rows keeps level and drop interval in line with the
/// total; no counter falls and the drop interval does not grow.
pub proof fn lemma_credit_lines(game: GameView, count: int)
    requires
        game.level == level_of(game.lines_cleared as int),
        game.drop_interval == drop_interval_of(game.level as int),
        0 <= count,
    ensures
        game.credit_lines(count).level == level_of(game.credit_lines(count).lines_cleared as int),
        game.credit_lines(count).drop_interval == drop_interval_of(
            game.credit_lines(count).level as int,
        ),
        game.not_ahead_of(game.credit_lines(count)),
{
    let after = game.credit_lines(count);
    lemma_level_monotonic(game.lines_cleared as int, after.lines_cleared as int);
    lemma_drop_interval_bounds(game.level as int, level_of(after.lines_cleared as int));
    assert(line_score(count, game.level as int) >= 0) by (nonlinear_arith)
        requires
            line_score(count, game.level as int) == crate::scoring::line_points(count)
                * game.level as int,
            crate::scoring::line_points(count) >= 0,
            game.level >= 0,
    ;
}

/// Crediting cleared rows never lets score, total or level fall, whatever
/// the counters held before; level and drop interval change only where the
/// level rises.
pub proof fn lemma_credit_lines_never_falls(game: GameView, count: int)
    requires
        0 <= count,
    ensures
        game.credit_lines(count).score >= game.score,
        game.credit_lines(count).lines_cleared >= game.lines_cleared,
        game.credit_lines(count).level >= game.level,
        game.credit_lines(count).level == game.level ==> game.credit_lines(count).drop_interval
            == game.drop_interval,
{
    assert(line_score(count, game.level as int) >= 0) by (nonlinear_arith)
        requires
            line_score(count, game.level as int) == crate::scoring::line_points(count)
                * game.level as int,
            crate::scoring::line_points(count) >= 0,
            game.level >= 0,
    ;
}

/// A lock keeps the invariant, whatever piece locks; no counter falls.
pub proof fn lemma_lock(game: GameView, piece: Tetromino, upcoming: TetrominoType)
    requires
        game.inv_around_piece(),
    ensures
        game.lock(piece, upcoming).inv(),
        game.not_ahead_of(game.lock(piece, upcoming)),
{
    lemma_stamped(game.board, piece);
    lemma_sweep_bounds(stamped(game.board, piece), BOARD_HEIGHT - 1);
    let swept = sweep(stamped(game.board, piece), BOARD_HEIGHT - 1);
    let settled = GameView { board: swept.grid, current_tetromino: None, ..game };
    if swept.rows.len() > 0 {
        lemma_credit_lines(settled, swept.rows.len() as int);
        lemma_spawn(settled.credit_lines(swept.rows.len() as int), upcoming);
    } else {
        lemma_spawn(settled, upcoming);
    }
}

/// A rotation with its kicks leaves a well-formed piece on a valid position
/// well-formed and on a valid position.
pub proof fn lemma_rotated_with_kick(grid: Grid, piece: Tetromino)
    requires
        piece.wf(),
        fits(grid, piece),
    ensures
        rotated_with_kick(grid, piece).wf(),
        fits(grid, rotated_with_kick(grid, piece)),
        rotated_with_kick(grid, piece).tetromino_type == piece.tetromino_type,
        rotated_with_kick(grid, piece).y == piece.y,
{
    lemma_rotated_wf(piece);
    lemma_four_rotations_restore(piece);
}

/// A rotation that fits neither in place nor after a kick leaves a
/// well-formed piece exactly as it was: three more rotation steps undo the
/// first.
pub proof fn lemma_failed_rotation_restores(grid: Grid, piece: Tetromino)
    requires
        piece.wf(),
        !fits(grid, piece.rotated()),
        !can_move(grid, piece.rotated(), -1, 0),
        !can_move(grid, piece.rotated(), 2, 0),
    ensures
        rotated_with_kick(grid, piece) == piece,
{
    lemma_four_rotations_restore(piece);
}

/// Every command keeps the invariant.
pub proof fn lemma_commands_keep_inv(game: GameView, dt: u64, upcoming: TetrominoType)
    requires
        game.inv(),
    ensures
        game.move_left().inv(),
        game.move_right().inv(),
        game.rotate().inv(),
        game.move_down(upcoming).inv(),
        game.hard_drop(upcoming).inv(),
        game.update(dt, upcoming).inv(),
        game.toggle_pause().inv(),
        game.start_game(upcoming).inv(),
        game.return_to_menu().inv(),
{
    lemma_spawn(game, upcoming);
    lemma_spawn(GameView { state: GameState::Playing, ..game }, upcoming);
    lemma_spawn(GameView { drop_timer: 0, ..game }, upcoming);
    match game.current_tetromino {
        Some(piece) => {
            if game.state == GameState::Playing {
                lemma_rotated_with_kick(game.board, piece);
                lemma_lock(game, piece, upcoming);
                lemma_lock(GameView { drop_timer: 0, ..game }, piece, upcoming);
                let bonus = GameView {
                    score: capped(game.score + hard_drop_bonus(game.drop_distance(piece))),
                    ..game
                };
                lemma_lock(bonus, game.dropped(piece), upcoming);
            }
        },
        None => {},
    }
}

/// No command lets a counter fall or the drop interval grow.
pub proof fn lemma_counters_never_fall(game: GameView, dt: u64, upcoming: TetrominoType)
    requires
        game.inv(),
    ensures
        game.not_ahead_of(game.move_left()),
        game.not_ahead_of(game.move_right()),
        game.not_ahead_of(game.rotate()),
        game.not_ahead_of(game.move_down(upcoming)),
        game.not_ahead_of(game.hard_drop(upcoming)),
        game.not_ahead_of(game.update(dt, upcoming)),
        game.not_ahead_of(game.toggle_pause()),
        game.not_ahead_of(game.start_game(upcoming)),
        game.not_ahead_of(game.return_to_menu()),
        MIN_DROP_INTERVAL <= game.drop_interval <= INITIAL_DROP_INTERVAL,
{
    lemma_level_monotonic(0, game.lines_cleared as int);
    lemma_drop_interval_bounds(1, game.level as int);
    lemma_spawn(game, upcoming);
    lemma_spawn(GameView { state: GameState::Playing, ..game }, upcoming);
    lemma_spawn(GameView { drop_timer: 0, ..game }, upcoming);
    match game.current_tetromino {
        Some(piece) => {
            if game.state == GameState::Playing {
                lemma_lock(game, piece, upcoming);
                lemma_lock(GameView { drop_timer: 0, ..game }, piece, upcoming);
                lemma_landing_row_bounds(game.board, piece, piece.y as int);
                let bonus = GameView {
                    score: capped(game.score + hard_drop_bonus(game.drop_distance(piece))),
                    ..game
                };
                lemma_lock(bonus, game.dropped(piece), upcoming);
            }
        },
        None => {},
    }
}

/// A hard drop of a piece that can descend exactly `k` rows, each a valid
/// position, before the next row down is invalid: the piece locks `k` rows
/// further down, and `2 * k` points are credited before the lock credits
/// any cleared rows.
pub proof fn lemma_hard_drop_descends(
    game: GameView,
    piece: Tetromino,
    k: int,
    upcoming: TetrominoType,
)
    requires
        game.state == GameState::Playing,
        game.current_tetromino == Some(piece),
        piece.wf(),
        0 <= k,
        piece.y + k + 1 <= i32::MAX,
        forall|row: int|
            piece.y < row <= piece.y + k ==> fits(
                game.board,
                #[trigger] piece.at(piece.x, row as i32),
            ),
        !fits(game.board, piece.at(piece.x, (piece.y + k + 1) as i32)),
    ensures
        game.hard_drop(upcoming) == (GameView { score: capped(game.score + 2 * k), ..game }).lock(
            piece.at(piece.x, (piece.y + k) as i32),
            upcoming,
        ),
        game.hard_drop_rows() == game.rows_cleared_by(piece.at(piece.x, (piece.y + k) as i32)),
{
    lemma_landing_row_after_descent(game.board, piece, k);
}

/// A hard drop locks the piece where the ghost position shows it.
pub proof fn lemma_hard_drop_lands_on_ghost(game: GameView, piece: Tetromino)
    requires
        game.current_tetromino == Some(piece),
    ensures
        game.dropped(piece).x == piece.x,
        game.dropped(piece).y == landing_row(game.board, piece, piece.y as int),
        game.drop_distance(piece) >= 0,
{
    lemma_landing_row_bounds(game.board, piece, piece.y as int);
}

/// A buffered piece that is not on a valid position ends the game when it
/// enters, by whichever command it enters.
pub proof fn lemma_blocked_spawn_ends_game(game: GameView, upcoming: TetrominoType)
    requires
        !fits(game.board, game.next_tetromino),
    ensures
        game.spawn(upcoming).state == GameState::GameOver,
        game.start_game(upcoming).state == GameState::GameOver,
        game.state == GameState::Playing && game.current_tetromino is None ==> game.move_down(
            upcoming,
        ).state == GameState::GameOver,
{
}

/// Out of play, no command and no passing of time changes anything; once
/// the game is over, the pause command changes nothing either.
pub proof fn lemma_frozen_out_of_play(game: GameView, dt: u64, upcoming: TetrominoType)
    requires
        game.state != GameState::Playing,
    ensures
        game.move_left() == game,
        game.move_right() == game,
        game.rotate() == game,
        game.move_down(upcoming) == game,
        game.hard_drop(upcoming) == game,
        game.update(dt, upcoming) == game,
        game.move_down_rows() == Seq::<usize>::empty(),
        game.hard_drop_rows() == Seq::<usize>::empty(),
        game.update_rows(dt) == Seq::<usize>::empty(),
        game.state == GameState::GameOver || game.state == GameState::Menu ==> game.toggle_pause()
            == game,
{
}

/// A piece with a cell in the leftmost column does not move left.
pub proof fn lemma_move_left_at_wall(game: GameView, piece: Tetromino, row: int)
    requires
        game.current_tetromino == Some(piece),
        piece.covers(0, row),
    ensures
        game.move_left() == game,
{
    if piece.can_translate(-1, 0) {
        assert(piece.translated(-1, 0).covers(-1, row));
    }
}

/// A piece with a cell in the rightmost column does not move right.
pub proof fn lemma_move_right_at_wall(game: GameView, piece: Tetromino, row: int)
    requires
        game.current_tetromino == Some(piece),
        piece.covers(BOARD_WIDTH - 1, row),
    ensures
        game.move_right() == game,
{
    if piece.can_translate(1, 0) {
        assert(piece.translated(1, 0).covers(BOARD_WIDTH as int, row));
    }
}

/// A sideways move changes nothing but the column of the falling piece, by
/// one or not at all.
pub proof fn lemma_move_sideways(game: GameView, piece: Tetromino, dx: int)
    requires
        game.current_tetromino == Some(piece),
        dx == 1 || dx == -1,
    ensures
        game.move_sideways(dx) == game || game.move_sideways(dx) == (GameView {
            current_tetromino: Some(piece.at((piece.x + dx) as i32, piece.y)),
            ..game
        }),
        game.move_sideways(dx) != game ==> fits(game.board, moved_if_valid(game.board, piece, dx, 0)),
{
}

/// Time that passes in play without the timer reaching the drop interval
/// only runs the timer on; when the timer reaches the interval it starts
/// again from zero, whatever the overshoot.
pub proof fn lemma_update_timer(game: GameView, dt: u64, upcoming: TetrominoType)
    requires
        game.state == GameState::Playing,
    ensures
        game.drop_timer + dt < game.drop_interval ==> game.update(dt, upcoming) == (GameView {
            drop_timer: (game.drop_timer + dt) as u64,
            ..game
        }),
        game.drop_timer + dt >= game.drop_interval ==> game.update(dt, upcoming) == (GameView {
            drop_timer: 0,
            ..game
        }).move_down(upcoming),
        game.update(dt, upcoming).drop_timer == 0 || game.update(dt, upcoming).drop_timer
            == timer_after(game.drop_timer, dt),
{
}

} // verus!
