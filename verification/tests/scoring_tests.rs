use purple_box::config::{
    INITIAL_DROP_INTERVAL, LEVEL_SPEED_INCREASE, LINES_PER_LEVEL, MIN_DROP_INTERVAL,
    SCORE_DOUBLE_LINE, SCORE_HARD_DROP_MULTIPLIER, SCORE_SINGLE_LINE, SCORE_TETRIS,
    SCORE_TRIPLE_LINE,
};
use purple_box::scoring::{drop_interval_for_level, hard_drop_score, level_for_lines, score_delta};

fn seconds(micros: u64) -> f64 {
    micros as f64 / 1_000_000.0
}

#[test]
fn score_deltas_at_level_one() {
    assert_eq!(score_delta(1, 1), 100);
    assert_eq!(score_delta(2, 1), 300);
    assert_eq!(score_delta(3, 1), 500);
    assert_eq!(score_delta(4, 1), 800);
}

#[test]
fn score_deltas_at_level_three() {
    assert_eq!(score_delta(1, 3), 300);
    assert_eq!(score_delta(2, 3), 900);
    assert_eq!(score_delta(3, 3), 1500);
    assert_eq!(score_delta(4, 3), 2400);
}

#[test]
fn other_counts_score_nothing() {
    assert_eq!(score_delta(0, 1), 0);
    assert_eq!(score_delta(5, 1), 0);
    assert_eq!(score_delta(14, 7), 0);
    assert_eq!(score_delta(usize::MAX, u32::MAX), 0);
    assert_eq!(score_delta(3, 0), 0);
}

#[test]
fn score_delta_stops_at_the_largest_value() {
    assert_eq!(score_delta(4, u32::MAX), u32::MAX);
    assert_eq!(score_delta(1, 42_949_672), 4_294_967_200);
    assert_eq!(score_delta(1, 42_949_673), u32::MAX);
}

#[test]
fn hard_drop_scores_two_points_a_row() {
    assert_eq!(hard_drop_score(0), 0);
    assert_eq!(hard_drop_score(1), 2);
    assert_eq!(hard_drop_score(13), 26);
    assert_eq!(hard_drop_score(u32::MAX), u32::MAX);
}

#[test]
fn levels_rise_every_ten_rows() {
    assert_eq!(level_for_lines(0), 1);
    assert_eq!(level_for_lines(9), 1);
    assert_eq!(level_for_lines(10), 2);
    assert_eq!(level_for_lines(19), 2);
    assert_eq!(level_for_lines(20), 3);
    assert_eq!(level_for_lines(100), 11);
    assert_eq!(level_for_lines(u32::MAX), 429_496_730);
}

#[test]
fn drop_interval_by_level() {
    assert_eq!(drop_interval_for_level(1), 1_000_000);
    assert_eq!(drop_interval_for_level(2), 900_000);
    assert_eq!(drop_interval_for_level(3), 800_000);
    assert_eq!(drop_interval_for_level(5), 600_000);
    assert_eq!(drop_interval_for_level(9), 200_000);
    assert_eq!(drop_interval_for_level(10), 100_000);
    assert_eq!(seconds(drop_interval_for_level(1)), 1.0);
    assert_eq!(seconds(drop_interval_for_level(2)), 0.9);
}

#[test]
fn drop_interval_has_a_floor() {
    assert_eq!(drop_interval_for_level(11), 100_000);
    assert_eq!(drop_interval_for_level(12), 100_000);
    assert_eq!(drop_interval_for_level(1000), 100_000);
    assert_eq!(drop_interval_for_level(u32::MAX), 100_000);
    assert_eq!(seconds(drop_interval_for_level(level_for_lines(100))), 0.1);
    assert_eq!(seconds(drop_interval_for_level(level_for_lines(250))), 0.1);
}

#[test]
fn drop_interval_never_grows_with_the_level() {
    let mut last = drop_interval_for_level(1);
    for level in 2..40u32 {
        let interval = drop_interval_for_level(level);
        assert!(interval <= last);
        assert!(interval >= MIN_DROP_INTERVAL);
        last = interval;
    }
}

#[test]
fn drop_interval_at_level_zero_follows_the_formula() {
    assert_eq!(drop_interval_for_level(0), 1_100_000);
}

#[test]
fn rule_numbers() {
    assert_eq!(INITIAL_DROP_INTERVAL, 1_000_000);
    assert_eq!(MIN_DROP_INTERVAL, 100_000);
    assert_eq!(LEVEL_SPEED_INCREASE, 100_000);
    assert_eq!(SCORE_SINGLE_LINE, 100);
    assert_eq!(SCORE_DOUBLE_LINE, 300);
    assert_eq!(SCORE_TRIPLE_LINE, 500);
    assert_eq!(SCORE_TETRIS, 800);
    assert_eq!(SCORE_HARD_DROP_MULTIPLIER, 2);
    assert_eq!(LINES_PER_LEVEL, 10);
}
