use dwarfing::block::{Block, BlockType};
use dwarfing::score::Score;
use dwarfing::shape::Shape;

fn block_of(kind: BlockType) -> Block {
    Block::new(Shape { x: 0, y: 0, width: 32000, height: 32000 }, kind)
}

#[test]
fn new_blocks_start_at_full_base_hp() {
    let dirt = block_of(BlockType::Dirt);
    assert_eq!(dirt.base_hp, 50);
    assert_eq!(dirt.hp, 50);
    let rock = block_of(BlockType::Rock);
    assert_eq!(rock.base_hp, 70);
    assert_eq!(rock.hp, 70);
    let gold = block_of(BlockType::Gold);
    assert_eq!(gold.base_hp, 100);
    assert_eq!(gold.hp, 100);
    assert!(!dirt.is_destroyed());
}

#[test]
fn dirt_block_destroyed_exactly_on_fifth_normal_hit() {
    let mut b = block_of(BlockType::Dirt);
    for expected_hp in [40, 30, 20, 10] {
        assert!(!b.subtract_block_hp(10));
        assert_eq!(b.hp, expected_hp);
        assert!(!b.is_destroyed());
    }
    assert!(b.subtract_block_hp(10));
    assert_eq!(b.hp, 0);
    assert!(b.is_destroyed());
    assert!(!b.subtract_block_hp(10));
    assert_eq!(b.hp, 0);
}

#[test]
fn overkill_hit_clamps_hp_at_zero() {
    let mut b = block_of(BlockType::Rock);
    assert!(b.subtract_block_hp(1000));
    assert_eq!(b.hp, 0);
    assert!(!b.subtract_block_hp(1000));
    assert_eq!(b.hp, 0);
}

#[test]
fn damage_ratio_bucket_thresholds_for_dirt() {
    let mut b = block_of(BlockType::Dirt);
    let expectations = [
        (50, 1),
        (38, 1),
        (37, 2),
        (25, 2),
        (24, 3),
        (13, 3),
        (12, 4),
        (1, 4),
        (0, 4),
    ];
    for (hp, bucket) in expectations {
        b.hp = hp;
        assert_eq!(b.damage_ratio_bucket(), bucket, "hp {}", hp);
    }
}

#[test]
fn damage_ratio_bucket_never_decreases_as_hp_falls() {
    for kind in [BlockType::Dirt, BlockType::Rock, BlockType::Gold] {
        let mut b = block_of(kind);
        let mut previous = b.damage_ratio_bucket();
        assert_eq!(previous, 1);
        let mut hp = b.base_hp;
        while hp > 0 {
            hp -= 1;
            b.hp = hp;
            let bucket = b.damage_ratio_bucket();
            assert!(bucket >= previous);
            assert!((1..=4).contains(&bucket));
            previous = bucket;
        }
        assert_eq!(previous, 4);
    }
}

#[test]
fn texture_selector_picks_frame_column_from_bucket() {
    let mut b = block_of(BlockType::Dirt);
    let frame = b.texture_selector();
    assert_eq!((frame.x, frame.y, frame.width, frame.height), (0, 0, 32, 32));
    b.hp = 10;
    let frame = b.texture_selector();
    assert_eq!(frame.x, 96);
}

#[test]
fn destruction_awards_fixed_score_and_gold_per_kind() {
    let mut score = Score::init();
    block_of(BlockType::Dirt).update_score(&mut score);
    assert_eq!((score.current_score, score.gold, score.blocks_destroyed), (1, 1, 1));
    block_of(BlockType::Rock).update_score(&mut score);
    assert_eq!((score.current_score, score.gold, score.blocks_destroyed), (4, 4, 2));
    block_of(BlockType::Gold).update_score(&mut score);
    assert_eq!((score.current_score, score.gold, score.blocks_destroyed), (14, 14, 3));
}

#[test]
fn score_counters_saturate_instead_of_wrapping() {
    let mut score = Score {
        current_score: i32::MAX,
        blocks_destroyed: i32::MAX - 1,
        gold: i32::MAX - 10,
    };
    block_of(BlockType::Gold).update_score(&mut score);
    assert_eq!(score.current_score, i32::MAX);
    assert_eq!(score.blocks_destroyed, i32::MAX);
    assert_eq!(score.gold, i32::MAX);
}

#[test]
fn score_init_is_all_zero() {
    let s = Score::init();
    assert_eq!((s.current_score, s.blocks_destroyed, s.gold), (0, 0, 0));
}
