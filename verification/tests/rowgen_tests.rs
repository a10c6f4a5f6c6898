use dwarfing::block::BlockType;
use dwarfing::rowgen::{
    gold_probability_micro, ln_micro, rock_probability_micro, spawn_row_of_blocks, BLOCK_SIZE,
    GOLD_CAP_MAX, MAX_DEPTH, ROCK_CAP_MAX,
};

#[test]
fn ln_micro_exact_values() {
    assert_eq!(ln_micro(1), 0);
    assert_eq!(ln_micro(2), 693147);
    // ln 1000 = 693147 * 9 + (1000 - 512) * 693147 / 512
    assert_eq!(ln_micro(1000), 6898978);
}

#[test]
fn gold_probability_is_zero_at_depth_500() {
    assert_eq!(gold_probability_micro(500), 0);
}

#[test]
fn gold_probability_is_zero_down_to_the_threshold() {
    assert_eq!(gold_probability_micro(0), 0);
    assert_eq!(gold_probability_micro(1999), 0);
    assert_eq!(gold_probability_micro(2000), 0);
}

#[test]
fn gold_probability_positive_and_capped_at_depth_3000() {
    // 0.002 * ln(1000) in micro-units: 6898978 / 500
    let p = gold_probability_micro(3000);
    assert_eq!(p, 13797);
    assert!(p > 0);
    assert!(p <= GOLD_CAP_MAX);
}

#[test]
fn rock_probability_exact_value_at_depth_1000() {
    // 0.01 * ln(1000) in micro-units, well under the 30% cap.
    assert_eq!(rock_probability_micro(1000), 68989);
}

#[test]
fn probabilities_never_exceed_their_caps() {
    for depth in [0, 1, 500, 1000, 2000, 2001, 3000, 100000, 1000000000, MAX_DEPTH] {
        let rock = rock_probability_micro(depth);
        let gold = gold_probability_micro(depth);
        assert!((0..=ROCK_CAP_MAX).contains(&rock), "depth {}", depth);
        assert!((0..=GOLD_CAP_MAX).contains(&gold), "depth {}", depth);
    }
}

#[test]
fn spawn_row_emits_exactly_the_needed_columns() {
    let mut blocks = Vec::new();
    spawn_row_of_blocks(&mut blocks, 10, 1200 * 1000);
    assert_eq!(blocks.len(), 10);
    for (i, b) in blocks.iter().enumerate() {
        assert_eq!(b.shape.x, i as i64 * BLOCK_SIZE);
        assert_eq!(b.shape.y, 1200 * 1000);
        assert_eq!(b.shape.width, BLOCK_SIZE);
        assert_eq!(b.shape.height, BLOCK_SIZE);
        assert_eq!(b.hp, b.base_hp);
        // 1200 pixels is above the gold threshold: no gold can appear.
        assert!(!matches!(b.block_type, BlockType::Gold));
    }
    // Strictly increasing x, stepping one block size at a time.
    for pair in blocks.windows(2) {
        assert_eq!(pair[1].shape.x - pair[0].shape.x, BLOCK_SIZE);
    }
}

#[test]
fn spawn_row_appends_and_keeps_existing_blocks() {
    let mut blocks = Vec::new();
    spawn_row_of_blocks(&mut blocks, 3, 64000);
    let first_row: Vec<_> = blocks.clone();
    spawn_row_of_blocks(&mut blocks, 3, 96000);
    assert_eq!(blocks.len(), 6);
    for i in 0..3 {
        assert_eq!(blocks[i].shape, first_row[i].shape);
        assert_eq!(blocks[i + 3].shape.y, 96000);
    }
}

#[test]
fn spawn_row_with_zero_columns_is_empty() {
    let mut blocks = Vec::new();
    spawn_row_of_blocks(&mut blocks, 0, 64000);
    assert!(blocks.is_empty());
}
