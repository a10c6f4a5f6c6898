use vstd::math::{max, min};
use vstd::prelude::*;

use crate::block::Block;
use crate::player::{Pickaxe, Player, MOVEMENT_SPEED, OFFSET_LIMIT, PLAYER_SIZE, SPEED_CAP};
use crate::rowgen::{spawn_row_of_blocks, spec_spawned_block, BLOCK_SIZE, MAX_COLUMNS};
use crate::score::Score;
use crate::shape::{Shape, COORD_LIMIT};

verus! {

/// Downward acceleration, in millipixels per second squared
/// (800 pixels per second squared).
pub const GRAVITY: i64 = 800000;

/// Longest frame step `update` accepts, in milliseconds.
pub const MAX_FRAME_MILLIS: i64 = 1000;

/// Largest admissible viewport dimension, in millipixels.
pub const VIEWPORT_LIMIT: i64 = 0x1_0000_0000;

/// How far from the top of the block area the player's rectangle can sit;
/// follows from the offset and viewport bounds.
pub const PLAYER_Y_LIMIT: i64 = OFFSET_LIMIT + 2 * VIEWPORT_LIMIT;

/// Deepest height at which the spawn watermark can stand.
pub const ROW_LIMIT: i64 = PLAYER_Y_LIMIT + VIEWPORT_LIMIT + BLOCK_SIZE;

/// Row-generation bookkeeping: how many columns a row needs, where the
/// block area begins, the deepest row generated so far (the watermark),
/// and the fixed viewport dimensions. All lengths in millipixels.
#[derive(Clone, Copy, PartialEq, Eq, Structural, Debug)]
pub struct Params {
    pub needed_x: usize,
    pub block_area_top: i64,
    pub last_row_y: i64,
    pub viewport_width: i64,
    pub viewport_height: i64,
}

/// The whole game state: score, player, the live block collection, and
/// the row-generation parameters.
pub struct Dwarfing {
    pub score: Score,
    pub player: Player,
    pub blocks: Vec<Block>,
    pub params: Params,
}

/// Strict axis-aligned rectangle overlap: rectangles that merely share an
/// edge or a corner do not collide.
pub open spec fn spec_collides(a: Shape, b: Shape) -> bool {
    &&& a.x < b.x + b.width
    &&& b.x < a.x + a.width
    &&& a.y < b.y + b.height
    &&& b.y < a.y + a.height
}

/// Rectangles that only share an edge do not collide: the overlap test is
/// strict on every boundary.
pub proof fn lemma_touching_edges_do_not_collide(a: Shape, b: Shape)
    requires
        a.x + a.width == b.x || b.x + b.width == a.x || a.y + a.height == b.y || b.y + b.height
            == a.y,
    ensures
        !spec_collides(a, b),
{
}

/// The fall offset is held inside `[-OFFSET_LIMIT, OFFSET_LIMIT]`; the
/// physics saturates there instead of overflowing.
pub open spec fn spec_clamp_offset(v: int) -> int {
    min(max(v, -OFFSET_LIMIT as int), OFFSET_LIMIT as int)
}

fn clamp_offset(v: i64) -> (r: i64)
    ensures
        r == spec_clamp_offset(v as int),
{
    if v < -OFFSET_LIMIT {
        -OFFSET_LIMIT
    } else if v > OFFSET_LIMIT {
        OFFSET_LIMIT
    } else {
        v
    }
}

/// One gravity tick of `dt` milliseconds: speed grows by the integrated
/// acceleration (saturating at the terminal speed) and the fall offset
/// drops by the distance covered at the new speed (saturating at the
/// offset bound).
pub open spec fn spec_gravity_step(d: Dwarfing, dt: int) -> Dwarfing {
    let speed = min(d.player.speed + GRAVITY * dt / 1000, SPEED_CAP as int);
    let offset = spec_clamp_offset(d.player.offset_y - speed * dt / 1000);
    Dwarfing { player: Player { speed: speed as i64, offset_y: offset as i64, ..d.player }, ..d }
}

/// The player's rectangle after re-centring: horizontally centred in the
/// viewport, vertically at the top of the block area less the player's
/// height and the accumulated fall offset.
pub open spec fn spec_position_step(d: Dwarfing) -> Dwarfing {
    let x = d.params.viewport_width / 2 - d.player.shape.width / 2;
    let y = d.params.block_area_top - d.player.shape.height - d.player.offset_y;
    Dwarfing {
        player: Player {
            shape: Shape { x: x as i64, y: y as i64, ..d.player.shape },
            ..d.player
        },
        ..d
    }
}

/// A new row is due as soon as the screen's lower edge passes the deepest
/// generated row.
pub open spec fn spec_row_spawn_due(d: Dwarfing) -> bool {
    d.player.shape.y + d.params.viewport_height > d.params.last_row_y
}

/// The spawn step: when a row is due, exactly one row of `needed_x`
/// freshly generated blocks appears one block size below the watermark
/// and the watermark advances; otherwise nothing changes. At most one row
/// spawns per frame, however far the player fell in the tick.
pub open spec fn spec_rows_spawned(d: Dwarfing, d2: Dwarfing) -> bool {
    if spec_row_spawn_due(d) {
        let row_y = d.params.last_row_y + BLOCK_SIZE;
        &&& d2.params == (Params { last_row_y: row_y as i64, ..d.params })
        &&& d2.player == d.player
        &&& d2.score == d.score
        &&& d2.blocks@.len() == d.blocks@.len() + d.params.needed_x
        &&& (forall|j: int| 0 <= j < d.blocks@.len() ==> d2.blocks@[j] == d.blocks@[j])
        &&& (forall|j: int|
            d.blocks@.len() <= j < d2.blocks@.len() ==> spec_spawned_block(
                d2.blocks@[j],
                j - d.blocks@.len(),
                row_y,
            ))
    } else {
        d2 == d
    }
}

/// Blocks whose height is at or above the cull line are dropped; the
/// culled collection keeps the surviving blocks in order.
pub open spec fn spec_culled_blocks(s: Seq<Block>, cutoff: int) -> Seq<Block>
    decreases s.len(),
{
    if s.len() == 0 {
        s
    } else {
        let rest = spec_culled_blocks(s.drop_last(), cutoff);
        if s.last().shape.y > cutoff {
            rest.push(s.last())
        } else {
            rest
        }
    }
}

/// The cull line: one whole viewport above the player.
pub open spec fn spec_cull_cutoff(d: Dwarfing) -> int {
    d.player.shape.y - d.params.viewport_height
}

/// The landing pass over a block sequence: every live block that strictly
/// overlaps the player's rectangle, and whose top the player's bottom has
/// passed, re-anchors the fall offset to its top and zeroes the speed;
/// later blocks in the collection win.
pub open spec fn spec_landings(s: Seq<Block>, p: Player, block_area_top: int) -> Player
    decreases s.len(),
{
    if s.len() == 0 {
        p
    } else {
        let prev = spec_landings(s.drop_last(), p, block_area_top);
        let b = s.last();
        if !b.spec_destroyed() && spec_collides(p.shape, b.shape) && p.shape.y + p.shape.height
            > b.shape.y {
            Player {
                offset_y: spec_clamp_offset(block_area_top - b.shape.y) as i64,
                speed: 0,
                ..prev
            }
        } else {
            prev
        }
    }
}

/// A block the mining input can hit: still alive and strictly overlapping
/// the player's rectangle.
pub open spec fn spec_mining_target(b: Block, player_shape: Shape) -> bool {
    !b.spec_destroyed() && spec_collides(player_shape, b.shape)
}

/// Index of the first minable block at or past `i`, or the sequence
/// length when there is none.
pub open spec fn spec_first_target(s: Seq<Block>, player_shape: Shape, i: int) -> int
    decreases s.len() - i,
{
    if i < 0 || i >= s.len() {
        s.len() as int
    } else if spec_mining_target(s[i], player_shape) {
        i
    } else {
        spec_first_target(s, player_shape, i + 1)
    }
}

/// One mining trigger: only the first minable block takes one hit of the
/// current pickaxe's damage, and exactly when that hit destroys it the
/// score is awarded. With no minable block nothing changes.
pub open spec fn spec_mine_result(s: Seq<Block>, p: Player, sc: Score) -> (Seq<Block>, Score) {
    let t = spec_first_target(s, p.shape, 0);
    if t == s.len() {
        (s, sc)
    } else {
        let b = s[t];
        let damage = p.current_pickaxe.spec_damage();
        (
            s.update(t, b.spec_damaged(damage)),
            if b.spec_destroys(damage) {
                b.spec_award(sc)
            } else {
                sc
            },
        )
    }
}

/// The steps that follow row spawning, chained at the level of block
/// sequences: culling, landing resolution, then mining when the trigger
/// was pressed.
pub open spec fn spec_after_spawn_steps(mid: Dwarfing, fin: Dwarfing, mining_pressed: bool) -> bool {
    let culled = spec_culled_blocks(mid.blocks@, spec_cull_cutoff(mid));
    let landed = spec_landings(culled, mid.player, mid.params.block_area_top as int);
    let mined = spec_mine_result(culled, landed, mid.score);
    &&& fin.params == mid.params
    &&& fin.player == landed
    &&& if mining_pressed {
        fin.blocks@ == mined.0 && fin.score == mined.1
    } else {
        fin.blocks@ == culled && fin.score == mid.score
    }
}

/// The number of columns needed to tile a viewport of width `w`: the
/// width divided by the block size, rounded up.
pub open spec fn spec_needed_columns(w: int) -> int {
    (w + BLOCK_SIZE - 1) / BLOCK_SIZE as int
}

/// The shop gate: a purchase is allowed exactly when the player holds
/// enough gold and the target tier is strictly above the current one.
pub open spec fn spec_purchase_allowed(d: Dwarfing, target: Pickaxe) -> bool {
    d.score.gold >= target.spec_price() && d.player.current_pickaxe.spec_tier()
        < target.spec_tier()
}

impl Dwarfing {
    /// Every piece of the state is well formed and every coordinate that
    /// the per-frame arithmetic touches is bounded.
    pub open spec fn wf(self) -> bool {
        &&& self.score.wf()
        &&& self.player.wf()
        &&& self.player.shape.width <= VIEWPORT_LIMIT
        &&& self.player.shape.height <= VIEWPORT_LIMIT
        &&& -PLAYER_Y_LIMIT <= self.player.shape.y <= PLAYER_Y_LIMIT
        &&& 0 < self.params.viewport_width <= VIEWPORT_LIMIT
        &&& 0 < self.params.viewport_height <= VIEWPORT_LIMIT
        &&& 0 <= self.params.block_area_top <= VIEWPORT_LIMIT
        &&& 0 <= self.params.last_row_y <= ROW_LIMIT
        &&& self.params.needed_x <= MAX_COLUMNS
        &&& forall|i: int| 0 <= i < self.blocks@.len() ==> (#[trigger] self.blocks@[i]).wf()
    }

    /// Sets up a fresh game for a viewport of the given size: the player
    /// centred at the top, empty score, no blocks yet, and the block area
    /// starting halfway down the screen.
    pub fn init(viewport_width: i64, viewport_height: i64) -> (game: Dwarfing)
        requires
            0 < viewport_width <= VIEWPORT_LIMIT,
            0 < viewport_height <= VIEWPORT_LIMIT,
        ensures
            game.wf(),
            game.player == (Player {
                shape: Shape {
                    x: (viewport_width / 2) as i64,
                    y: 0,
                    width: PLAYER_SIZE,
                    height: PLAYER_SIZE,
                },
                speed: MOVEMENT_SPEED,
                offset_y: 0,
                current_pickaxe: Pickaxe::Normal,
            }),
            game.score == (Score { current_score: 0, blocks_destroyed: 0, gold: 0 }),
            game.blocks@.len() == 0,
            game.params.needed_x == spec_needed_columns(viewport_width as int),
            game.params.block_area_top == viewport_height / 2,
            game.params.last_row_y == viewport_height / 2,
            game.params.viewport_width == viewport_width,
            game.params.viewport_height == viewport_height,
    {
        let player_shape = Shape {
            x: viewport_width / 2,
            y: 0,
            width: PLAYER_SIZE,
            height: PLAYER_SIZE,
        };
        let player = Player::new(player_shape);
        let score = Score::init();
        let blocks: Vec<Block> = Vec::new();
        let needed = (viewport_width + BLOCK_SIZE - 1) / BLOCK_SIZE;
        proof {
            vstd::arithmetic::div_mod::lemma_div_is_ordered(
                viewport_width + BLOCK_SIZE - 1,
                VIEWPORT_LIMIT + BLOCK_SIZE - 1,
                BLOCK_SIZE as int,
            );
            assert((VIEWPORT_LIMIT + BLOCK_SIZE - 1) / (BLOCK_SIZE as int) < MAX_COLUMNS);
            vstd::arithmetic::div_mod::lemma_div_pos_is_pos(
                viewport_width + BLOCK_SIZE - 1,
                BLOCK_SIZE as int,
            );
        }
        let needed_x = needed as usize;
        let block_area_top = viewport_height / 2;
        Dwarfing {
            score,
            player,
            blocks,
            params: Params {
                needed_x,
                block_area_top,
                last_row_y: block_area_top,
                viewport_width,
                viewport_height,
            },
        }
    }

    /// Integrates gravity over one frame step.
    pub fn apply_gravity(&mut self, delta_millis: i64)
        requires
            old(self).wf(),
            0 <= delta_millis <= MAX_FRAME_MILLIS,
        ensures
            final(self).wf(),
            *final(self) == spec_gravity_step(*old(self), delta_millis as int),
    {
        let gained = GRAVITY * delta_millis / 1000;
        let speed_raw = self.player.speed + gained;
        self.player.speed = if speed_raw < SPEED_CAP {
            speed_raw
        } else {
            SPEED_CAP
        };
        proof {
            assert(self.player.speed * delta_millis <= SPEED_CAP * MAX_FRAME_MILLIS)
                by (nonlinear_arith)
                requires
                    0 <= self.player.speed <= SPEED_CAP,
                    0 <= delta_millis <= MAX_FRAME_MILLIS,
            {
            }
            vstd::arithmetic::div_mod::lemma_div_pos_is_pos(
                self.player.speed * delta_millis,
                1000,
            );
            vstd::arithmetic::div_mod::lemma_div_is_ordered(
                self.player.speed * delta_millis,
                SPEED_CAP * MAX_FRAME_MILLIS,
                1000,
            );
        }
        let fallen = self.player.speed * delta_millis / 1000;
        self.player.offset_y = clamp_offset(self.player.offset_y - fallen);
    }

    /// Re-centres the player horizontally and resolves the vertical
    /// position from the accumulated fall offset.
    pub fn update_player_position(&mut self)
        requires
            old(self).wf(),
        ensures
            final(self).wf(),
            *final(self) == spec_position_step(*old(self)),
    {
        self.player.shape.x = self.params.viewport_width / 2 - self.player.shape.width / 2;
        self.player.shape.y = self.params.block_area_top - self.player.shape.height
            - self.player.offset_y;
    }

    /// Spawns one freshly generated row when the viewport has reached the
    /// deepest generated row, and advances the watermark.
    pub fn update_blocks(&mut self)
        requires
            old(self).wf(),
        ensures
            final(self).wf(),
            spec_rows_spawned(*old(self), *final(self)),
    {
        if self.player.shape.y + self.params.viewport_height > self.params.last_row_y {
            let new_row_y = self.params.last_row_y + BLOCK_SIZE;
            spawn_row_of_blocks(&mut self.blocks, self.params.needed_x, new_row_y);
            self.params.last_row_y = new_row_y;
        }
    }

    /// Drops every block that now sits a whole viewport or more above the
    /// player.
    pub fn remove_off_screen_blocks(&mut self)
        requires
            old(self).wf(),
        ensures
            final(self).wf(),
            final(self).blocks@ == spec_culled_blocks(
                old(self).blocks@,
                spec_cull_cutoff(*old(self)),
            ),
            final(self).player == old(self).player,
            final(self).score == old(self).score,
            final(self).params == old(self).params,
    {
        let cutoff = self.player.shape.y - self.params.viewport_height;
        let ghost s = self.blocks@;
        let mut kept: Vec<Block> = Vec::new();
        let mut i: usize = 0;
        while i < self.blocks.len()
            invariant
                i <= s.len(),
                self.blocks@ == s,
                kept@ == spec_culled_blocks(s.take(i as int), cutoff as int),
                forall|k: int| 0 <= k < s.len() ==> (#[trigger] s[k]).wf(),
                forall|k: int| 0 <= k < kept@.len() ==> (#[trigger] kept@[k]).wf(),
            decreases s.len() - i,
        {
            let b = self.blocks[i];
            proof {
                assert(s.take(i + 1).drop_last() =~= s.take(i as int));
                assert(s.take(i + 1).last() == s[i as int]);
            }
            if b.shape.y > cutoff {
                kept.push(b);
            }
            i = i + 1;
        }
        proof {
            assert(s.take(s.len() as int) =~= s);
        }
        self.blocks = kept;
    }

    pub fn check_collision(a: &Shape, b: &Shape) -> (r: bool)
        requires
            a.wf(),
            b.wf(),
        ensures
            r == spec_collides(*a, *b),
    {
        a.x < b.x + b.width && a.x + a.width > b.x && a.y < b.y + b.height && a.y + a.height > b.y
    }

    /// Lands the player on a block: once the player's bottom has passed
    /// the block's top, the fall offset re-anchors to the block's top and
    /// the fall stops.
    pub fn resolve_collision(player: &mut Player, block: &Shape, block_area_top: i64)
        requires
            old(player).wf(),
            block.wf(),
            -VIEWPORT_LIMIT <= block_area_top <= VIEWPORT_LIMIT,
        ensures
            final(player).wf(),
            final(player).shape == old(player).shape,
            final(player).current_pickaxe == old(player).current_pickaxe,
            *final(player) == if old(player).shape.y + old(player).shape.height > block.y {
                Player {
                    offset_y: spec_clamp_offset(block_area_top - block.y) as i64,
                    speed: 0,
                    ..*old(player)
                }
            } else {
                *old(player)
            },
    {
        let player_bottom = player.shape.y + player.shape.height;
        let block_top = block.y;
        if player_bottom > block_top {
            player.offset_y = clamp_offset(block_area_top - block_top);
            player.speed = 0;
        }
    }

    /// Runs the landing pass over the whole collection, later blocks
    /// winning.
    pub fn player_collision(&mut self)
        requires
            old(self).wf(),
        ensures
            final(self).wf(),
            final(self).player == spec_landings(
                old(self).blocks@,
                old(self).player,
                old(self).params.block_area_top as int,
            ),
            final(self).blocks@ == old(self).blocks@,
            final(self).score == old(self).score,
            final(self).params == old(self).params,
    {
        let ghost p0 = self.player;
        let ghost s = self.blocks@;
        let ghost bat = self.params.block_area_top as int;
        let mut i: usize = 0;
        while i < self.blocks.len()
            invariant
                i <= s.len(),
                self.blocks@ == s,
                self.score == old(self).score,
                self.params == old(self).params,
                self.params.block_area_top as int == bat,
                0 <= self.params.block_area_top <= VIEWPORT_LIMIT,
                forall|k: int| 0 <= k < s.len() ==> (#[trigger] s[k]).wf(),
                p0.wf(),
                self.player == spec_landings(s.take(i as int), p0, bat),
                self.player.shape == p0.shape,
                self.player.wf(),
            decreases s.len() - i,
        {
            proof {
                assert(s.take(i + 1).drop_last() =~= s.take(i as int));
                assert(s.take(i + 1).last() == s[i as int]);
            }
            let destroyed = self.blocks[i].is_destroyed();
            if !destroyed {
                let block_shape = self.blocks[i].shape;
                if Self::check_collision(&self.player.shape, &block_shape) {
                    let block_area_top = self.params.block_area_top;
                    Self::resolve_collision(&mut self.player, &block_shape, block_area_top);
                }
            }
            i = i + 1;
        }
        proof {
            assert(s.take(s.len() as int) =~= s);
        }
    }

    /// Applies one mining trigger to the first minable block: it takes
    /// the current pickaxe's damage, and its destruction, when this hit
    /// causes it, is scored. Later overlapping blocks are untouched.
    pub fn destroy_touching_blocks(blocks: &mut Vec<Block>, player: &Player, score: &mut Score)
        requires
            forall|k: int| 0 <= k < old(blocks)@.len() ==> (#[trigger] old(blocks)@[k]).wf(),
            player.wf(),
            old(score).wf(),
        ensures
            forall|k: int| 0 <= k < final(blocks)@.len() ==> (#[trigger] final(blocks)@[k]).wf(),
            final(score).wf(),
            (final(blocks)@, *final(score)) == spec_mine_result(
                old(blocks)@,
                *player,
                *old(score),
            ),
    {
        let ghost s = old(blocks)@;
        let mut i: usize = 0;
        while i < blocks.len()
            invariant
                i <= s.len(),
                s == old(blocks)@,
                blocks@ == s,
                *score == *old(score),
                old(score).wf(),
                player.wf(),
                forall|k: int| 0 <= k < s.len() ==> (#[trigger] s[k]).wf(),
                forall|k: int| 0 <= k < i ==> !spec_mining_target(s[k], player.shape),
            decreases s.len() - i,
        {
            let destroyed = blocks[i].is_destroyed();
            let touching = Self::check_collision(&player.shape, &blocks[i].shape);
            if !destroyed && touching {
                let hp_to_subtract = player.current_pickaxe.damage();
                let mut b = blocks[i];
                let block_destroyed = b.subtract_block_hp(hp_to_subtract);
                if block_destroyed {
                    b.update_score(score);
                }
                blocks[i] = b;
                proof {
                    lemma_first_target_skip(s, player.shape, i as int);
                }
                return ;
            }
            i = i + 1;
        }
        proof {
            lemma_first_target_skip(s, player.shape, s.len() as int);
        }
    }

    /// Feeds one frame of mining input into the world: a press mines the
    /// first overlapping block, no press leaves everything as it was.
    pub fn handle_input(&mut self, mining_pressed: bool)
        requires
            old(self).wf(),
        ensures
            final(self).wf(),
            final(self).player == old(self).player,
            final(self).params == old(self).params,
            if mining_pressed {
                (final(self).blocks@, final(self).score) == spec_mine_result(
                    old(self).blocks@,
                    old(self).player,
                    old(self).score,
                )
            } else {
                final(self).blocks@ == old(self).blocks@ && final(self).score == old(self).score
            },
    {
        if mining_pressed {
            Self::destroy_touching_blocks(&mut self.blocks, &self.player, &mut self.score);
        }
    }

    /// One whole frame: gravity, position resolve, row spawning, culling,
    /// landing resolution, then mining input, in that order.
    pub fn update(&mut self, delta_millis: i64, mining_pressed: bool)
        requires
            old(self).wf(),
            0 <= delta_millis <= MAX_FRAME_MILLIS,
        ensures
            final(self).wf(),
            exists|mid: Dwarfing|
                #[trigger] spec_rows_spawned(
                    spec_position_step(spec_gravity_step(*old(self), delta_millis as int)),
                    mid,
                ) && spec_after_spawn_steps(mid, *final(self), mining_pressed),
    {
        self.apply_gravity(delta_millis);
        self.update_player_position();
        self.update_blocks();
        let ghost mid = *self;
        self.remove_off_screen_blocks();
        self.player_collision();
        self.handle_input(mining_pressed);
        proof {
            assert(spec_rows_spawned(
                spec_position_step(spec_gravity_step(*old(self), delta_millis as int)),
                mid,
            ) && spec_after_spawn_steps(mid, *self, mining_pressed));
        }
    }

    /// The shop's upgrade transition: succeeds exactly when the gold
    /// covers the price and the tier strictly increases; then the price
    /// is deducted and the pickaxe replaced. A failed gate changes
    /// nothing.
    pub fn try_purchase(&mut self, target: Pickaxe) -> (purchased: bool)
        requires
            old(self).wf(),
        ensures
            final(self).wf(),
            purchased == spec_purchase_allowed(*old(self), target),
            purchased ==> *final(self) == (Dwarfing {
                player: Player { current_pickaxe: target, ..old(self).player },
                score: Score {
                    gold: (old(self).score.gold - target.spec_price()) as i32,
                    ..old(self).score
                },
                ..*old(self)
            }),
            !purchased ==> *final(self) == *old(self),
    {
        let price = target.price();
        if self.score.gold >= price && self.player.current_pickaxe.tier() < target.tier() {
            self.score.gold = self.score.gold - price;
            self.player.current_pickaxe = target;
            true
        } else {
            false
        }
    }
}

/// Skipping a prefix with no minable block does not change which block
/// the mining scan finds.
proof fn lemma_first_target_skip(s: Seq<Block>, player_shape: Shape, j: int)
    requires
        0 <= j <= s.len(),
        forall|k: int| 0 <= k < j ==> !spec_mining_target(s[k], player_shape),
    ensures
        spec_first_target(s, player_shape, 0) == spec_first_target(s, player_shape, j),
    decreases j,
{
    if j > 0 {
        lemma_first_target_skip(s, player_shape, j - 1);
    }
}

} // verus!
