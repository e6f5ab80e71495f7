//! The scoring and levelling policy: what a lock is worth, which level a
//! number of cleared rows amounts to, and how fast pieces fall at a level.
//!
//! The counters of a game are `u32` values that stop at `u32::MAX` instead of
//! wrapping, so they never decrease.

use crate::config::{
    INITIAL_DROP_INTERVAL, LEVEL_SPEED_INCREASE, LINES_PER_LEVEL, MIN_DROP_INTERVAL,
    SCORE_DOUBLE_LINE, SCORE_HARD_DROP_MULTIPLIER, SCORE_SINGLE_LINE, SCORE_TETRIS,
    SCORE_TRIPLE_LINE,
};
use vstd::prelude::*;

verus! {

/// A counter value: `value` itself, or `u32::MAX` where it would go beyond.
pub open spec fn capped(value: int) -> u32 {
    if value >= u32::MAX {
        u32::MAX
    } else if value <= 0 {
        0
    } else {
        value as u32
    }
}

/// Base points for the rows that one piece clears: 100, 300, 500 and 800 for
/// one to four rows, nothing for any other count.
pub open spec fn line_points(lines: int) -> int {
    if lines == 1 {
        SCORE_SINGLE_LINE as int
    } else if lines == 2 {
        SCORE_DOUBLE_LINE as int
    } else if lines == 3 {
        SCORE_TRIPLE_LINE as int
    } else if lines == 4 {
        SCORE_TETRIS as int
    } else {
        0
    }
}

/// Points for `lines` rows cleared by one piece at `level`: the base points
/// times the level.
pub open spec fn line_score(lines: int, level: int) -> int {
    line_points(lines) * level
}

/// Points for a hard drop over `rows` rows; the level plays no part.
pub open spec fn hard_drop_bonus(rows: int) -> int {
    SCORE_HARD_DROP_MULTIPLIER * rows
}

/// The level after `total_lines` cleared rows: one more every ten rows,
/// starting at 1.
pub open spec fn level_of(total_lines: int) -> int {
    total_lines / (LINES_PER_LEVEL as int) + 1
}

/// Time between two forced descents at `level`, in microseconds: a tenth of
/// a second less with every level, but never under a tenth of a second.
pub open spec fn drop_interval_of(level: int) -> int {
    let interval = INITIAL_DROP_INTERVAL - LEVEL_SPEED_INCREASE * (level - 1);
    if interval >= MIN_DROP_INTERVAL {
        interval
    } else {
        MIN_DROP_INTERVAL as int
    }
}

/// Computes the points for `lines_cleared` rows cleared by one piece at
/// `level`, capped at `u32::MAX`.
pub fn score_delta(lines_cleared: usize, level: u32) -> (points: u32)
    ensures
        points == capped(line_score(lines_cleared as int, level as int)),
{
    let base: u64 = match lines_cleared {
        1 => SCORE_SINGLE_LINE as u64,
        2 => SCORE_DOUBLE_LINE as u64,
        3 => SCORE_TRIPLE_LINE as u64,
        4 => SCORE_TETRIS as u64,
        _ => 0,
    };
    assert(base * (level as u64) <= 800 * 0xffff_ffff) by (nonlinear_arith)
        requires
            base <= 800,
            level <= 0xffff_ffff,
    ;
    let points: u64 = base * (level as u64);
    if points >= u32::MAX as u64 {
        u32::MAX
    } else {
        points as u32
    }
}

/// Computes the points for a hard drop over `rows` rows, capped at
/// `u32::MAX`.
pub fn hard_drop_score(rows: u32) -> (points: u32)
    ensures
        points == capped(hard_drop_bonus(rows as int)),
{
    let factor: u64 = SCORE_HARD_DROP_MULTIPLIER as u64;
    let points: u64 = factor * (rows as u64);
    if points >= u32::MAX as u64 {
        u32::MAX
    } else {
        points as u32
    }
}

/// Computes the level that `total_lines` cleared rows amount to.
pub fn level_for_lines(total_lines: u32) -> (level: u32)
    ensures
        level == level_of(total_lines as int),
{
    total_lines / LINES_PER_LEVEL + 1
}

/// Computes the time between two forced descents at `level`, in
/// microseconds.
pub fn drop_interval_for_level(level: u32) -> (interval: u64)
    ensures
        interval == drop_interval_of(level as int),
{
    if level >= 10 {
        MIN_DROP_INTERVAL
    } else {
        INITIAL_DROP_INTERVAL + LEVEL_SPEED_INCREASE - LEVEL_SPEED_INCREASE * (level as u64)
    }
}

/// The time between two forced descents never goes under the minimum, stays
/// there from level 10 on, and never grows from one level to the next.
pub proof fn lemma_drop_interval_bounds(level: int, higher: int)
    requires
        1 <= level <= higher,
    ensures
        MIN_DROP_INTERVAL <= drop_interval_of(higher) <= drop_interval_of(level)
            <= INITIAL_DROP_INTERVAL,
        level >= 10 ==> drop_interval_of(level) == MIN_DROP_INTERVAL,
{
}

/// From 90 cleared rows on, the time between two forced descents is the
/// minimum, however many more rows are cleared.
pub proof fn lemma_drop_interval_floor(total_lines: int)
    requires
        90 <= total_lines,
    ensures
        level_of(total_lines) >= 10,
        drop_interval_of(level_of(total_lines)) == MIN_DROP_INTERVAL,
{
}

/// The level never falls when more rows are cleared.
pub proof fn lemma_level_monotonic(lines: int, more: int)
    requires
        0 <= lines <= more,
    ensures
        1 <= level_of(lines) <= level_of(more),
{
}

} // verus!
