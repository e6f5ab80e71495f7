//! The game: the field, the falling piece, the piece that comes next, the
//! counters and the drop timer, and the commands that drive them.
//!
//! Every command is described by a function on [`GameView`], the
//! mathematical model of a game; the executable command is proved to take
//! the game from a state to the state that this function gives. Wherever a
//! new piece enters, the variant that is buffered behind it is a parameter
//! of the model and of the `_with` form of the command, so that a run can be
//! replayed; the plain form of the command draws that variant at random.
//!
//! A command that locks a piece returns the rows that the lock cleared, for
//! whoever shows them: each by the index that it had in the field when the
//! piece locked, before any row was taken out, from the bottom up.

use crate::board::{Board, BOARD_HEIGHT};
use crate::grid::{
    empty_grid, fits, landing_row, lemma_landing_row_bounds, lemma_sweep_bounds, stamped, sweep,
    Grid,
};
use crate::config::INITIAL_DROP_INTERVAL;
use crate::scoring::{
    capped, drop_interval_for_level, drop_interval_of, hard_drop_bonus, hard_drop_score,
    level_for_lines, level_of, line_score, score_delta,
};
use crate::tetromino::{Tetromino, TetrominoType};
use vstd::prelude::*;

verus! {

/// The phase that a game is in.
#[derive(Debug, Clone, Copy, PartialEq, Eq, Structural)]
pub enum GameState {
    Menu,
    Playing,
    Paused,
    GameOver,
}

/// The mathematical model of a [`Game`].
pub struct GameView {
    pub board: Grid,
    pub current_tetromino: Option<Tetromino>,
    pub next_tetromino: Tetromino,
    pub score: u32,
    pub level: u32,
    pub lines_cleared: u32,
    pub state: GameState,
    pub drop_timer: u64,
    pub drop_interval: u64,
}

/// The piece can be moved by `dx` columns and `dy` rows: the new anchor is
/// representable and the moved piece is on a valid position.
pub open spec fn can_move(grid: Grid, piece: Tetromino, dx: int, dy: int) -> bool {
    piece.can_translate(dx, dy) && fits(grid, piece.translated(dx, dy))
}

/// The piece moved by `dx` columns and `dy` rows if it can be moved so, else
/// the piece as it is.
pub open spec fn moved_if_valid(grid: Grid, piece: Tetromino, dx: int, dy: int) -> Tetromino {
    if can_move(grid, piece, dx, dy) {
        piece.translated(dx, dy)
    } else {
        piece
    }
}

/// The piece after a rotation command: rotated by one step where it is, if
/// that is a valid position; else rotated and one column to the left; else
/// rotated and two columns to the right; else rotated three more steps, with
/// the anchor where it was.
pub open spec fn rotated_with_kick(grid: Grid, piece: Tetromino) -> Tetromino {
    let turned = piece.rotated();
    if fits(grid, turned) {
        turned
    } else if can_move(grid, turned, -1, 0) {
        turned.translated(-1, 0)
    } else if can_move(grid, turned, 2, 0) {
        turned.translated(2, 0)
    } else {
        turned.rotated().rotated().rotated()
    }
}

/// The sum of a timer and a span of time, stopping at `u64::MAX`.
pub open spec fn timer_after(timer: u64, dt: u64) -> u64 {
    if timer + dt >= u64::MAX {
        u64::MAX
    } else {
        (timer + dt) as u64
    }
}

impl GameView {
    /// A game that has not started: an empty field, no falling piece, a
    /// piece of variant `next` in the buffer, counters at their start.
    pub open spec fn initial(next: TetrominoType) -> GameView {
        GameView {
            board: empty_grid(),
            current_tetromino: None,
            next_tetromino: Tetromino::spawned(next),
            score: 0,
            level: 1,
            lines_cleared: 0,
            state: GameState::Menu,
            drop_timer: 0,
            drop_interval: INITIAL_DROP_INTERVAL,
        }
    }

    /// The buffered piece enters the field and a piece of variant `upcoming`
    /// takes its place in the buffer. If the entering piece is not on a valid
    /// position, the game is over.
    pub open spec fn spawn(self, upcoming: TetrominoType) -> GameView {
        GameView {
            current_tetromino: Some(self.next_tetromino),
            next_tetromino: Tetromino::spawned(upcoming),
            state: if fits(self.board, self.next_tetromino) {
                self.state
            } else {
                GameState::GameOver
            },
            ..self
        }
    }

    /// The game starts: it is in play, and a piece enters as in
    /// [`GameView::spawn`].
    pub open spec fn start_game(self, upcoming: TetrominoType) -> GameView {
        GameView { state: GameState::Playing, ..self }.spawn(upcoming)
    }

    /// A new session: the field is empty, the counters and the timer are at
    /// their start, a piece of variant `first` falls and one of variant
    /// `upcoming` is buffered.
    pub open spec fn reset(first: TetrominoType, upcoming: TetrominoType) -> GameView {
        GameView::initial(first).start_game(upcoming)
    }

    /// The falling piece moves by `dx` columns if the game is in play and the
    /// piece can move so; else nothing changes.
    pub open spec fn move_sideways(self, dx: int) -> GameView {
        match self.current_tetromino {
            Some(piece) if self.state == GameState::Playing => GameView {
                current_tetromino: Some(moved_if_valid(self.board, piece, dx, 0)),
                ..self
            },
            _ => self,
        }
    }

    /// The move-left command.
    pub open spec fn move_left(self) -> GameView {
        self.move_sideways(-1)
    }

    /// The move-right command.
    pub open spec fn move_right(self) -> GameView {
        self.move_sideways(1)
    }

    /// The rotation command: the falling piece turns as
    /// [`rotated_with_kick`] says, if the game is in play.
    pub open spec fn rotate(self) -> GameView {
        match self.current_tetromino {
            Some(piece) if self.state == GameState::Playing => GameView {
                current_tetromino: Some(rotated_with_kick(self.board, piece)),
                ..self
            },
            _ => self,
        }
    }

    /// The counters after one piece has cleared `count` rows, `count > 0`:
    /// the rows are added to the total, the points for them are credited at
    /// the level that held before, and if the total amounts to a higher level,
    /// the level rises to it and the drop interval becomes that of the new
    /// level. Otherwise level and drop interval stay as they are.
    pub open spec fn credit_lines(self, count: int) -> GameView {
        let lines_cleared = capped(self.lines_cleared + count);
        let score = capped(self.score + line_score(count, self.level as int));
        let level = level_of(lines_cleared as int) as u32;
        if level > self.level {
            GameView {
                lines_cleared,
                score,
                level,
                drop_interval: drop_interval_of(level as int) as u64,
                ..self
            }
        } else {
            GameView { lines_cleared, score, ..self }
        }
    }

    /// The rows that are cleared when `piece` locks, each by the index it has
    /// in the field with the piece stamped in, before any row is taken out;
    /// from the bottom up.
    pub open spec fn rows_cleared_by(self, piece: Tetromino) -> Seq<usize> {
        sweep(stamped(self.board, piece), BOARD_HEIGHT - 1).rows
    }

    /// `piece` locks: it is stamped into the field, the field is swept for
    /// full rows, cleared rows are credited, and the next piece enters.
    pub open spec fn lock(self, piece: Tetromino, upcoming: TetrominoType) -> GameView {
        let swept = sweep(stamped(self.board, piece), BOARD_HEIGHT - 1);
        let settled = GameView { board: swept.grid, current_tetromino: None, ..self };
        if swept.rows.len() > 0 {
            settled.credit_lines(swept.rows.len() as int).spawn(upcoming)
        } else {
            settled.spawn(upcoming)
        }
    }

    /// The falling piece locks where it is; without a falling piece nothing
    /// changes.
    pub open spec fn lock_current(self, upcoming: TetrominoType) -> GameView {
        match self.current_tetromino {
            Some(piece) => self.lock(piece, upcoming),
            None => self,
        }
    }

    /// The rows that [`GameView::lock_current`] clears.
    pub open spec fn lock_current_rows(self) -> Seq<usize> {
        match self.current_tetromino {
            Some(piece) => self.rows_cleared_by(piece),
            None => Seq::empty(),
        }
    }

    /// The soft-descent command, also the step that gravity forces: in play,
    /// the falling piece moves down one row if it can and locks if it cannot;
    /// without a falling piece, one enters.
    pub open spec fn move_down(self, upcoming: TetrominoType) -> GameView {
        if self.state != GameState::Playing {
            self
        } else {
            match self.current_tetromino {
                Some(piece) => if can_move(self.board, piece, 0, 1) {
                    GameView { current_tetromino: Some(piece.translated(0, 1)), ..self }
                } else {
                    self.lock(piece, upcoming)
                },
                None => self.spawn(upcoming),
            }
        }
    }

    /// The rows that [`GameView::move_down`] clears.
    pub open spec fn move_down_rows(self) -> Seq<usize> {
        match self.current_tetromino {
            Some(piece) if self.state == GameState::Playing && !can_move(
                self.board,
                piece,
                0,
                1,
            ) => self.rows_cleared_by(piece),
            _ => Seq::empty(),
        }
    }

    /// The falling piece at the row where it comes to rest.
    pub open spec fn dropped(self, piece: Tetromino) -> Tetromino {
        piece.at(piece.x, landing_row(self.board, piece, piece.y as int) as i32)
    }

    /// Number of rows that the falling piece descends in a hard drop.
    pub open spec fn drop_distance(self, piece: Tetromino) -> int {
        landing_row(self.board, piece, piece.y as int) - piece.y
    }

    /// The hard-drop command: in play, the falling piece descends to the row
    /// where it comes to rest, two points are credited for each row of the
    /// descent, and the piece locks there.
    pub open spec fn hard_drop(self, upcoming: TetrominoType) -> GameView {
        match self.current_tetromino {
            Some(piece) if self.state == GameState::Playing => GameView {
                score: capped(self.score + hard_drop_bonus(self.drop_distance(piece))),
                ..self
            }.lock(self.dropped(piece), upcoming),
            _ => self,
        }
    }

    /// The rows that [`GameView::hard_drop`] clears.
    pub open spec fn hard_drop_rows(self) -> Seq<usize> {
        match self.current_tetromino {
            Some(piece) if self.state == GameState::Playing => self.rows_cleared_by(
                self.dropped(piece),
            ),
            _ => Seq::empty(),
        }
    }

    /// The drop timer has run for `dt` more microseconds and, with that, has
    /// reached the drop interval.
    pub open spec fn timer_expires(self, dt: u64) -> bool {
        self.state == GameState::Playing && timer_after(self.drop_timer, dt) >= self.drop_interval
    }

    /// Time advances by `dt` microseconds: in play, the drop timer runs on;
    /// once it has reached the drop interval it goes back to zero and the
    /// piece is forced down one step, once, however much time has passed.
    pub open spec fn update(self, dt: u64, upcoming: TetrominoType) -> GameView {
        if self.state != GameState::Playing {
            self
        } else if self.timer_expires(dt) {
            GameView { drop_timer: 0, ..self }.move_down(upcoming)
        } else {
            GameView { drop_timer: timer_after(self.drop_timer, dt), ..self }
        }
    }

    /// The rows that [`GameView::update`] clears.
    pub open spec fn update_rows(self, dt: u64) -> Seq<usize> {
        if self.timer_expires(dt) {
            self.move_down_rows()
        } else {
            Seq::empty()
        }
    }

    /// The pause command: play pauses, a paused game goes on, every other
    /// phase stays.
    pub open spec fn toggle_pause(self) -> GameView {
        match self.state {
            GameState::Playing => GameView { state: GameState::Paused, ..self },
            GameState::Paused => GameView { state: GameState::Playing, ..self },
            _ => self,
        }
    }

    /// The game goes back to the menu; nothing else changes.
    pub open spec fn return_to_menu(self) -> GameView {
        GameView { state: GameState::Menu, ..self }
    }
}

/// A game session.
#[derive(Debug, Clone, Copy, PartialEq, Eq)]
pub struct Game {
    pub board: Board,
    pub current_tetromino: Option<Tetromino>,
    pub next_tetromino: Tetromino,
    pub score: u32,
    pub level: u32,
    pub lines_cleared: u32,
    pub state: GameState,
    /// Time since the last forced descent, in microseconds.
    pub drop_timer: u64,
    /// Time between two forced descents, in microseconds.
    pub drop_interval: u64,
}

impl View for Game {
    type V = GameView;

    open spec fn view(&self) -> GameView {
        GameView {
            board: self.board@,
            current_tetromino: self.current_tetromino,
            next_tetromino: self.next_tetromino,
            score: self.score,
            level: self.level,
            lines_cleared: self.lines_cleared,
            state: self.state,
            drop_timer: self.drop_timer,
            drop_interval: self.drop_interval,
        }
    }
}

impl Game {
    /// Creates a game that waits in the menu, with a randomly drawn piece in
    /// the buffer.
    pub fn new() -> (game: Game)
        ensures
            game@ == GameView::initial(game.next_tetromino.tetromino_type),
    {
        Game::with_next(TetrominoType::random())
    }

    /// Creates a game that waits in the menu, with a piece of variant `next`
    /// in the buffer.
    pub fn with_next(next: TetrominoType) -> (game: Game)
        ensures
            game@ == GameView::initial(next),
    {
        Game {
            board: Board::new(),
            current_tetromino: None,
            next_tetromino: Tetromino::new(next),
            score: 0,
            level: 1,
            lines_cleared: 0,
            state: GameState::Menu,
            drop_timer: 0,
            drop_interval: INITIAL_DROP_INTERVAL,
        }
    }

    /// Brings the buffered piece into play and buffers a piece of variant
    /// `upcoming`. The game is over if the entering piece does not fit.
    pub fn spawn_tetromino_with(&mut self, upcoming: TetrominoType)
        ensures
            final(self)@ == old(self)@.spawn(upcoming),
    {
        let entering = self.next_tetromino;
        self.current_tetromino = Some(entering);
        self.next_tetromino = Tetromino::new(upcoming);
        if !self.board.is_valid_position(&entering) {
            self.state = GameState::GameOver;
        }
    }

    /// Brings the buffered piece into play and buffers a randomly drawn one.
    pub fn spawn_tetromino(&mut self)
        ensures
            final(self)@ == old(self)@.spawn(final(self).next_tetromino.tetromino_type),
    {
        self.spawn_tetromino_with(TetrominoType::random());
    }

    /// Moves the falling piece one column to the left if the game is in play
    /// and the piece fits there; else nothing changes.
    pub fn move_left(&mut self)
        ensures
            final(self)@ == old(self)@.move_left(),
    {
        if self.state != GameState::Playing {
            return ;
        }
        if let Some(piece) = self.current_tetromino {
            if piece.x > i32::MIN {
                let mut moved = piece;
                moved.translate(-1, 0);
                if self.board.is_valid_position(&moved) {
                    self.current_tetromino = Some(moved);
                }
            }
        }
    }

    /// Moves the falling piece one column to the right if the game is in
    /// play and the piece fits there; else nothing changes.
    pub fn move_right(&mut self)
        ensures
            final(self)@ == old(self)@.move_right(),
    {
        if self.state != GameState::Playing {
            return ;
        }
        if let Some(piece) = self.current_tetromino {
            if piece.x < i32::MAX {
                let mut moved = piece;
                moved.translate(1, 0);
                if self.board.is_valid_position(&moved) {
                    self.current_tetromino = Some(moved);
                }
            }
        }
    }

    /// Moves the falling piece down one row, or locks it where it cannot go
    /// down, and then buffers a piece of variant `upcoming` behind the one
    /// that enters. Returns the indices of the rows that were cleared.
    pub fn move_down_with(&mut self, upcoming: TetrominoType) -> (cleared_lines: Vec<usize>)
        ensures
            final(self)@ == old(self)@.move_down(upcoming),
            cleared_lines@ == old(self)@.move_down_rows(),
    {
        if self.state != GameState::Playing {
            return Vec::new();
        }
        if let Some(piece) = self.current_tetromino {
            if piece.y < i32::MAX {
                let mut moved = piece;
                moved.translate(0, 1);
                if self.board.is_valid_position(&moved) {
                    self.current_tetromino = Some(moved);
                    return Vec::new();
                }
            }
            self.place_tetromino(upcoming)
        } else {
            self.spawn_tetromino_with(upcoming);
            Vec::new()
        }
    }

    /// Moves the falling piece down one row, or locks it where it cannot go
    /// down; a piece that enters after a lock is followed in the buffer by a
    /// randomly drawn one. Returns the indices of the rows that were cleared.
    pub fn move_down(&mut self) -> (cleared_lines: Vec<usize>)
        ensures
            final(self)@ == old(self)@.move_down(final(self).next_tetromino.tetromino_type),
            cleared_lines@ == old(self)@.move_down_rows(),
    {
        self.move_down_with(TetrominoType::random())
    }

    /// Rotates the falling piece by one step if the game is in play. Where
    /// the rotated piece does not fit, it is tried one column to the left,
    /// then two columns to the right of where it was; where neither fits,
    /// the piece is rotated three more steps, back to where it started.
    pub fn rotate(&mut self)
        ensures
            final(self)@ == old(self)@.rotate(),
    {
        if self.state != GameState::Playing {
            return ;
        }
        if let Some(piece) = self.current_tetromino {
            let mut tetromino = piece;
            tetromino.rotate();
            if !self.board.is_valid_position(&tetromino) {
                let turned = tetromino;
                let mut kicked = false;
                if turned.x > i32::MIN {
                    tetromino.translate(-1, 0);
                    kicked = self.board.is_valid_position(&tetromino);
                }
                if !kicked {
                    tetromino = turned;
                    if turned.x < i32::MAX - 1 {
                        tetromino.translate(2, 0);
                        kicked = self.board.is_valid_position(&tetromino);
                    }
                }
                if !kicked {
                    tetromino = turned;
                    tetromino.rotate();
                    tetromino.rotate();
                    tetromino.rotate();
                }
            }
            self.current_tetromino = Some(tetromino);
        }
    }

    /// Drops the falling piece to the row where it comes to rest, credits
    /// two points for each row of the fall and locks the piece; a piece of
    /// variant `upcoming` is buffered behind the one that enters. Returns the
    /// indices of the rows that were cleared.
    pub fn hard_drop_with(&mut self, upcoming: TetrominoType) -> (cleared_lines: Vec<usize>)
        ensures
            final(self)@ == old(self)@.hard_drop(upcoming),
            cleared_lines@ == old(self)@.hard_drop_rows(),
    {
        if self.state != GameState::Playing {
            return Vec::new();
        }
        if let Some(piece) = self.current_tetromino {
            let (_, landing) = self.board.get_ghost_position(&piece);
            proof {
                lemma_landing_row_bounds(self.board@, piece, piece.y as int);
            }
            let drop_distance: i64 = landing as i64 - piece.y as i64;
            let mut dropped = piece;
            dropped.y = landing;
            self.score = self.score.saturating_add(hard_drop_score(drop_distance as u32));
            self.current_tetromino = Some(dropped);
            self.place_tetromino(upcoming)
        } else {
            Vec::new()
        }
    }

    /// Drops and locks the falling piece as [`Game::hard_drop_with`] does,
    /// with a randomly drawn piece for the buffer.
    pub fn hard_drop(&mut self) -> (cleared_lines: Vec<usize>)
        ensures
            final(self)@ == old(self)@.hard_drop(final(self).next_tetromino.tetromino_type),
            cleared_lines@ == old(self)@.hard_drop_rows(),
    {
        self.hard_drop_with(TetrominoType::random())
    }

    /// Locks the falling piece where it is: stamps it into the field, clears
    /// the full rows, credits them, and lets the next piece enter. Returns
    /// the indices of the rows that were cleared.
    pub fn place_tetromino(&mut self, upcoming: TetrominoType) -> (cleared_lines: Vec<usize>)
        ensures
            final(self)@ == old(self)@.lock_current(upcoming),
            cleared_lines@ == old(self)@.lock_current_rows(),
    {
        if let Some(tetromino) = self.current_tetromino {
            self.current_tetromino = None;
            self.board.place_tetromino(&tetromino);
            proof {
                lemma_sweep_bounds(self.board@, BOARD_HEIGHT - 1);
            }
            let cleared_lines = self.board.clear_lines_with_animation();
            if cleared_lines.len() > 0 {
                self.lines_cleared = self.lines_cleared.saturating_add(cleared_lines.len() as u32);
                self.update_score(cleared_lines.len());
                self.update_level();
            }
            self.spawn_tetromino_with(upcoming);
            cleared_lines
        } else {
            Vec::new()
        }
    }

    /// Credits the points for `lines_cleared` rows cleared by one piece, at
    /// the current level.
    pub fn update_score(&mut self, lines_cleared: usize)
        ensures
            *final(self) == (Game {
                score: capped(old(self).score + line_score(lines_cleared as int, old(self).level as int)),
                ..*old(self)
            }),
    {
        self.score = self.score.saturating_add(score_delta(lines_cleared, self.level));
    }

    /// Raises the level to the one that the total of cleared rows amounts
    /// to, if that is higher, and sets the drop interval to that of the new
    /// level. Where the level does not rise, nothing changes.
    pub fn update_level(&mut self)
        ensures
            level_of(old(self).lines_cleared as int) <= old(self).level ==> *final(self) == *old(self),
            level_of(old(self).lines_cleared as int) > old(self).level ==> *final(self) == (Game {
                level: level_of(old(self).lines_cleared as int) as u32,
                drop_interval: drop_interval_of(level_of(old(self).lines_cleared as int)) as u64,
                ..*old(self)
            }),
    {
        let new_level = level_for_lines(self.lines_cleared);
        if new_level > self.level {
            self.level = new_level;
            self.drop_interval = drop_interval_for_level(self.level);
        }
    }

    /// Advances time by `dt` microseconds. In play, the drop timer runs on;
    /// once it has reached the drop interval it is set back to zero and the
    /// piece is forced down one step, whatever time is left over. A piece of
    /// variant `upcoming` is buffered if one enters. Returns the indices of
    /// the rows that were cleared.
    pub fn update_with(&mut self, dt: u64, upcoming: TetrominoType) -> (cleared_lines: Vec<usize>)
        ensures
            final(self)@ == old(self)@.update(dt, upcoming),
            cleared_lines@ == old(self)@.update_rows(dt),
    {
        if self.state != GameState::Playing {
            return Vec::new();
        }
        self.drop_timer = self.drop_timer.saturating_add(dt);
        if self.drop_timer >= self.drop_interval {
            self.drop_timer = 0;
            self.move_down_with(upcoming)
        } else {
            Vec::new()
        }
    }

    /// Advances time by `dt` microseconds as [`Game::update_with`] does, with
    /// a randomly drawn piece for the buffer.
    pub fn update(&mut self, dt: u64) -> (cleared_lines: Vec<usize>)
        ensures
            final(self)@ == old(self)@.update(dt, final(self).next_tetromino.tetromino_type),
            cleared_lines@ == old(self)@.update_rows(dt),
    {
        self.update_with(dt, TetrominoType::random())
    }

    /// Pauses a game in play and resumes a paused one; in the menu and after
    /// the game is over nothing changes.
    pub fn toggle_pause(&mut self)
        ensures
            final(self)@ == old(self)@.toggle_pause(),
    {
        match self.state {
            GameState::Playing => self.state = GameState::Paused,
            GameState::Paused => self.state = GameState::Playing,
            GameState::GameOver => {},
            GameState::Menu => {},
        }
    }

    /// Starts a new session from any phase: empties the field, sets the
    /// counters and the timer back, and puts a piece of variant `first` into
    /// play with one of variant `upcoming` behind it.
    pub fn reset_with(&mut self, first: TetrominoType, upcoming: TetrominoType)
        ensures
            final(self)@ == GameView::reset(first, upcoming),
    {
        self.board.clear();
        self.current_tetromino = None;
        self.next_tetromino = Tetromino::new(first);
        self.score = 0;
        self.level = 1;
        self.lines_cleared = 0;
        self.drop_timer = 0;
        self.drop_interval = INITIAL_DROP_INTERVAL;
        self.start_game_with(upcoming);
    }

    /// Starts a new session from any phase, with two randomly drawn pieces.
    pub fn reset(&mut self)
        ensures
            final(self).current_tetromino matches Some(piece) && final(self)@ == GameView::reset(
                piece.tetromino_type,
                final(self).next_tetromino.tetromino_type,
            ),
    {
        self.reset_with(TetrominoType::random(), TetrominoType::random());
    }

    /// Puts the game in play and brings the buffered piece in, with a piece
    /// of variant `upcoming` behind it.
    pub fn start_game_with(&mut self, upcoming: TetrominoType)
        ensures
            final(self)@ == old(self)@.start_game(upcoming),
    {
        self.state = GameState::Playing;
        self.spawn_tetromino_with(upcoming);
    }

    /// Puts the game in play and brings the buffered piece in, with a
    /// randomly drawn piece behind it.
    pub fn start_game(&mut self)
        ensures
            final(self)@ == old(self)@.start_game(final(self).next_tetromino.tetromino_type),
    {
        self.start_game_with(TetrominoType::random());
    }

    /// Goes back to the menu; the session stays as it is.
    pub fn return_to_menu(&mut self)
        ensures
            final(self)@ == old(self)@.return_to_menu(),
    {
        self.state = GameState::Menu;
    }

    /// The score.
    pub fn get_score(&self) -> (score: u32)
        ensures
            score == self.score,
    {
        self.score
    }

    /// The level.
    pub fn get_level(&self) -> (level: u32)
        ensures
            level == self.level,
    {
        self.level
    }

    /// The total of cleared rows.
    pub fn get_lines_cleared(&self) -> (lines_cleared: u32)
        ensures
            lines_cleared == self.lines_cleared,
    {
        self.lines_cleared
    }

    /// The phase of the game.
    pub fn get_state(&self) -> (state: &GameState)
        ensures
            *state == self.state,
    {
        &self.state
    }

    /// The buffered piece.
    pub fn get_next_tetromino(&self) -> (next: &Tetromino)
        ensures
            *next == self.next_tetromino,
    {
        &self.next_tetromino
    }
}

} // verus!
