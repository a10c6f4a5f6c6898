use dwarfing::block::{Block, BlockType};
use dwarfing::dwarfing::Dwarfing;
use dwarfing::player::{Pickaxe, SPEED_CAP};
use dwarfing::shape::Shape;

const WIDTH: i64 = 1056000;
const HEIGHT: i64 = 800000;

fn world() -> Dwarfing {
    Dwarfing::init(WIDTH, HEIGHT)
}

fn block_at(x: i64, y: i64, kind: BlockType) -> Block {
    Block::new(Shape { x, y, width: 32000, height: 32000 }, kind)
}

/// A block sitting exactly on the player's rectangle, so that mining and
/// landing both see it.
fn block_on_player(game: &Dwarfing, kind: BlockType) -> Block {
    block_at(game.player.shape.x, game.player.shape.y, kind)
}

#[test]
fn init_sets_up_viewport_derived_parameters() {
    let game = world();
    assert_eq!(game.params.needed_x, 33);
    assert_eq!(game.params.block_area_top, HEIGHT / 2);
    assert_eq!(game.params.last_row_y, HEIGHT / 2);
    assert_eq!(game.player.shape.x, WIDTH / 2);
    assert_eq!(game.player.shape.y, 0);
    assert_eq!(game.player.speed, 1000);
    assert_eq!(game.player.offset_y, 0);
    assert!(matches!(game.player.current_pickaxe, Pickaxe::Normal));
    assert!(game.blocks.is_empty());
    assert_eq!(game.score.gold, 0);
}

#[test]
fn touching_edges_do_not_collide() {
    let a = Shape { x: 0, y: 0, width: 32000, height: 32000 };
    let right = Shape { x: 32000, y: 0, width: 32000, height: 32000 };
    let below = Shape { x: 0, y: 32000, width: 32000, height: 32000 };
    let corner = Shape { x: 32000, y: 32000, width: 32000, height: 32000 };
    assert!(!Dwarfing::check_collision(&a, &right));
    assert!(!Dwarfing::check_collision(&right, &a));
    assert!(!Dwarfing::check_collision(&a, &below));
    assert!(!Dwarfing::check_collision(&a, &corner));
}

#[test]
fn overlapping_rectangles_collide() {
    let a = Shape { x: 0, y: 0, width: 32000, height: 32000 };
    let b = Shape { x: 31999, y: 31999, width: 32000, height: 32000 };
    assert!(Dwarfing::check_collision(&a, &b));
    assert!(Dwarfing::check_collision(&b, &a));
    assert!(Dwarfing::check_collision(&a, &a));
}

#[test]
fn one_update_integrates_gravity_and_spawns_one_row() {
    let mut game = world();
    game.update(16, false);
    // speed: 1000 + 800000 * 16 / 1000; offset falls by speed * 16 / 1000.
    assert_eq!(game.player.speed, 13800);
    assert_eq!(game.player.offset_y, -220);
    assert_eq!(game.player.shape.y, HEIGHT / 2 - 32000 + 220);
    assert_eq!(game.player.shape.x, WIDTH / 2 - 16000);
    // Exactly one row appeared, one block size below the watermark.
    assert_eq!(game.blocks.len(), 33);
    assert_eq!(game.params.last_row_y, HEIGHT / 2 + 32000);
    assert!(game.blocks.iter().all(|b| b.shape.y == HEIGHT / 2 + 32000));
}

#[test]
fn gravity_saturates_at_terminal_speed() {
    let mut game = world();
    game.player.speed = SPEED_CAP;
    game.apply_gravity(16);
    assert_eq!(game.player.speed, SPEED_CAP);
}

#[test]
fn landing_anchors_offset_to_block_top_and_stops_fall() {
    let mut game = world();
    game.player.offset_y = -64000;
    game.update_player_position();
    let block = block_on_player(&game, BlockType::Dirt);
    game.blocks.push(block);
    game.player_collision();
    assert_eq!(game.player.offset_y, game.params.block_area_top - block.shape.y);
    assert_eq!(game.player.speed, 0);
}

#[test]
fn destroyed_blocks_are_not_landed_on() {
    let mut game = world();
    let mut block = block_on_player(&game, BlockType::Dirt);
    block.hp = 0;
    game.blocks.push(block);
    let speed_before = game.player.speed;
    game.player_collision();
    assert_eq!(game.player.speed, speed_before);
}

#[test]
fn culling_removes_only_blocks_a_viewport_above_the_player() {
    let mut game = world();
    let far_above = block_at(0, game.player.shape.y - game.params.viewport_height - 1, BlockType::Dirt);
    let just_kept = block_at(0, game.player.shape.y - game.params.viewport_height + 1, BlockType::Rock);
    let below = block_at(0, game.player.shape.y + 64000, BlockType::Gold);
    game.blocks.push(far_above);
    game.blocks.push(just_kept);
    game.blocks.push(below);
    game.remove_off_screen_blocks();
    assert_eq!(game.blocks.len(), 2);
    assert!(matches!(game.blocks[0].block_type, BlockType::Rock));
    assert!(matches!(game.blocks[1].block_type, BlockType::Gold));
}

#[test]
fn five_normal_hits_destroy_a_dirt_block_and_award_once() {
    let mut game = world();
    let block = block_on_player(&game, BlockType::Dirt);
    game.blocks.push(block);
    for expected_hp in [40, 30, 20, 10] {
        game.handle_input(true);
        assert_eq!(game.blocks[0].hp, expected_hp);
        assert_eq!(game.score.current_score, 0);
        assert_eq!(game.score.gold, 0);
        assert_eq!(game.score.blocks_destroyed, 0);
    }
    game.handle_input(true);
    assert_eq!(game.blocks[0].hp, 0);
    assert!(game.blocks[0].is_destroyed());
    assert_eq!(game.score.current_score, 1);
    assert_eq!(game.score.gold, 1);
    assert_eq!(game.score.blocks_destroyed, 1);
    // A sixth hit is a no-op and awards nothing.
    game.handle_input(true);
    assert_eq!(game.blocks[0].hp, 0);
    assert_eq!(game.score.current_score, 1);
    assert_eq!(game.score.gold, 1);
    assert_eq!(game.score.blocks_destroyed, 1);
}

#[test]
fn only_the_first_overlapping_block_takes_a_hit() {
    let mut game = world();
    game.blocks.push(block_on_player(&game, BlockType::Dirt));
    game.blocks.push(block_on_player(&game, BlockType::Rock));
    game.handle_input(true);
    assert_eq!(game.blocks[0].hp, 40);
    assert_eq!(game.blocks[1].hp, 70);
}

#[test]
fn released_mining_button_changes_nothing() {
    let mut game = world();
    game.blocks.push(block_on_player(&game, BlockType::Dirt));
    game.handle_input(false);
    assert_eq!(game.blocks[0].hp, 50);
    assert_eq!(game.score.blocks_destroyed, 0);
}

#[test]
fn purchase_is_rejected_without_enough_gold() {
    let mut game = world();
    assert!(!game.try_purchase(Pickaxe::Iron));
    assert_eq!(game.score.gold, 0);
    assert!(matches!(game.player.current_pickaxe, Pickaxe::Normal));
}

#[test]
fn purchase_succeeds_at_exactly_the_price_and_upgrades_damage() {
    let mut game = world();
    game.score.gold = 50;
    assert!(game.try_purchase(Pickaxe::Iron));
    assert_eq!(game.score.gold, 0);
    assert!(matches!(game.player.current_pickaxe, Pickaxe::Iron));
    // Mining hits now subtract 25 instead of 10.
    game.blocks.push(block_on_player(&game, BlockType::Dirt));
    game.handle_input(true);
    assert_eq!(game.blocks[0].hp, 25);
}

#[test]
fn same_tier_and_downgrades_are_rejected() {
    let mut game = world();
    game.score.gold = 500;
    assert!(game.try_purchase(Pickaxe::Gold));
    assert_eq!(game.score.gold, 350);
    assert!(!game.try_purchase(Pickaxe::Gold));
    assert!(!game.try_purchase(Pickaxe::Iron));
    assert_eq!(game.score.gold, 350);
    assert!(matches!(game.player.current_pickaxe, Pickaxe::Gold));
}

#[test]
fn pickaxe_tiers_deal_fixed_damage() {
    assert_eq!(Pickaxe::Normal.damage(), 10);
    assert_eq!(Pickaxe::Iron.damage(), 25);
    assert_eq!(Pickaxe::Gold.damage(), 50);
    assert_eq!(Pickaxe::Iron.price(), 50);
    assert_eq!(Pickaxe::Gold.price(), 150);
}

#[test]
fn update_with_mining_runs_the_whole_frame_pipeline() {
    // A small viewport: two columns, block area starting at 32000.
    let mut game = Dwarfing::init(64000, 64000);
    assert_eq!(game.params.needed_x, 2);
    // Pretend the player has already fallen one block height.
    game.player.offset_y = -64000;
    game.update(0, true);
    // One row spawned right under the watermark, overlapping the player.
    assert_eq!(game.blocks.len(), 2);
    assert!(game.blocks.iter().all(|b| b.shape.y == 64000));
    // The landing re-anchored the fall offset to the row's top.
    assert_eq!(game.player.offset_y, game.params.block_area_top - 64000);
    assert_eq!(game.player.speed, 0);
    // The mining press hit exactly the first block of the row.
    assert_eq!(game.blocks[0].hp, game.blocks[0].base_hp - 10);
    assert_eq!(game.blocks[1].hp, game.blocks[1].base_hp);
}
