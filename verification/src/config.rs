//! The numbers of the rules: scores, levels and the speed curve.
//!
//! Times are whole microseconds.

use vstd::prelude::*;

verus! {

/// Time between two forced descents at level 1.
pub const INITIAL_DROP_INTERVAL: u64 = 1_000_000;

/// The shortest time between two forced descents, reached at level 10.
pub const MIN_DROP_INTERVAL: u64 = 100_000;

/// By how much each level shortens the time between two forced descents.
pub const LEVEL_SPEED_INCREASE: u64 = 100_000;

/// Points for one cleared row, at level 1.
pub const SCORE_SINGLE_LINE: u32 = 100;

/// Points for two rows cleared by one piece, at level 1.
pub const SCORE_DOUBLE_LINE: u32 = 300;

/// Points for three rows cleared by one piece, at level 1.
pub const SCORE_TRIPLE_LINE: u32 = 500;

/// Points for four rows cleared by one piece, at level 1.
pub const SCORE_TETRIS: u32 = 800;

/// Points for each row that a piece falls in a hard drop.
pub const SCORE_HARD_DROP_MULTIPLIER: u32 = 2;

/// Cleared rows that it takes to reach the next level.
pub const LINES_PER_LEVEL: u32 = 10;

} // verus!
