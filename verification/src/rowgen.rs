use vstd::arithmetic::div_mod::{
    lemma_div_is_ordered, lemma_div_pos_is_pos,
    lemma_fundamental_div_mod,
};
use vstd::math::{max, min};
use vstd::prelude::*;

use crate::block::{Block, BlockType};
use crate::shape::{Shape, COORD_LIMIT};

verus! {

/// Edge of one block in millipixels (32 screen pixels).
pub const BLOCK_SIZE: i64 = 32000;

/// Most columns a row may hold; far above what any admissible viewport
/// width asks for.
pub const MAX_COLUMNS: usize = 262144;

/// Probability scale: 1_000_000 micro-units are probability one.
pub const PROB_SCALE: i64 = 1000000;

/// The natural logarithm of two in micro-units.
pub const LN2_MICRO: i64 = 693147;

/// Largest argument `ln_micro` accepts; keeps its intermediate products
/// inside `i64`.
pub const MAX_LN_INPUT: i64 = 0x800_0000_0000;

/// Depth (in pixels) at which the rock cap starts to ramp up.
pub const ROCK_RAMP_START: i64 = 1000;

/// Base and ceiling of the rock-probability cap, in micro-units.
pub const ROCK_CAP_BASE: i64 = 300000;

pub const ROCK_CAP_MAX: i64 = 800000;

/// Depth (in pixels) above which no gold appears.
pub const GOLD_DEPTH: i64 = 2000;

/// Base and ceiling of the gold-probability cap, in micro-units.
pub const GOLD_CAP_BASE: i64 = 20000;

pub const GOLD_CAP_MAX: i64 = 200000;

/// Largest depth (in pixels) the probability formulas accept.
pub const MAX_DEPTH: i64 = MAX_LN_INPUT;

/// Relies on macroquad::rand::rand: a pseudo-random draw from the crate's
/// global generator. The draw depends on hidden generator state, so
/// nothing is promised of the value.
#[verifier::external_body]
fn random_u32() -> u32 {
    macroquad::rand::rand()
}

pub open spec fn spec_pow2(k: int) -> int
    decreases k,
{
    if k <= 0 {
        1
    } else {
        2 * spec_pow2(k - 1)
    }
}

/// The position of the highest set bit: the largest `k` with
/// `2^k <= x` (and 0 for `x < 2`).
pub open spec fn spec_floor_log2(x: int) -> int
    decreases x,
{
    if x < 2 {
        0
    } else {
        1 + spec_floor_log2(x / 2)
    }
}

/// The natural logarithm in micro-units, approximated piecewise linearly
/// between neighbouring powers of two: `ln x = ln 2 * (k + (x - 2^k) / 2^k)`
/// with `k` the floor of the base-two logarithm.
pub open spec fn spec_ln_micro(x: int) -> int {
    let k = spec_floor_log2(x);
    let p = spec_pow2(k);
    LN2_MICRO * k + (x - p) * LN2_MICRO / p
}

proof fn lemma_pow2_pos(k: int)
    ensures
        spec_pow2(k) >= 1,
    decreases k,
{
    if k > 0 {
        lemma_pow2_pos(k - 1);
    }
}

proof fn lemma_pow2_monotonic(j: int, k: int)
    requires
        j <= k,
    ensures
        spec_pow2(j) <= spec_pow2(k),
    decreases k - j,
{
    if j < k {
        lemma_pow2_monotonic(j, k - 1);
        lemma_pow2_pos(k - 1);
    }
}

proof fn lemma_floor_log2_bounds(x: int)
    requires
        x >= 1,
    ensures
        spec_floor_log2(x) >= 0,
        spec_pow2(spec_floor_log2(x)) <= x < 2 * spec_pow2(spec_floor_log2(x)),
    decreases x,
{
    if x < 2 {
    } else {
        lemma_floor_log2_bounds(x / 2);
    }
}

/// `spec_floor_log2` is the only exponent whose power of two brackets `x`.
proof fn lemma_floor_log2_unique(x: int, k: int)
    requires
        x >= 1,
        k >= 0,
        spec_pow2(k) <= x < 2 * spec_pow2(k),
    ensures
        spec_floor_log2(x) == k,
{
    let lg = spec_floor_log2(x);
    lemma_floor_log2_bounds(x);
    if lg < k {
        lemma_pow2_monotonic(lg + 1, k);
        assert(spec_pow2(lg + 1) == 2 * spec_pow2(lg));
    }
    if lg > k {
        lemma_pow2_monotonic(k + 1, lg);
        assert(spec_pow2(k + 1) == 2 * spec_pow2(k));
    }
}

/// The approximated logarithm is non-negative, and at least `ln 2` from
/// two upward.
proof fn lemma_ln_micro_lower_bounds(x: int)
    requires
        x >= 1,
    ensures
        spec_ln_micro(x) >= 0,
        x >= 2 ==> spec_ln_micro(x) >= LN2_MICRO,
{
    let k = spec_floor_log2(x);
    let p = spec_pow2(k);
    lemma_floor_log2_bounds(x);
    lemma_div_pos_is_pos((x - p) * LN2_MICRO, p);
    if x >= 2 {
        assert(k >= 1) by {
            if k == 0 {
                assert(spec_pow2(0) == 1);
                assert(x < 2);
            }
        }
    }
}

/// Computes `spec_ln_micro` for positive arguments.
pub fn ln_micro(x: i64) -> (r: i64)
    requires
        1 <= x <= MAX_LN_INPUT,
    ensures
        r == spec_ln_micro(x as int),
        0 <= r,
        x >= 2 ==> r >= LN2_MICRO,
{
    let mut k: i64 = 0;
    let mut p: i64 = 1;
    while p * 2 <= x
        invariant
            1 <= x <= MAX_LN_INPUT,
            0 <= k <= 43,
            p == spec_pow2(k as int),
            1 <= p <= x,
        decreases x - p,
    {
        proof {
            // Another doubling keeps the exponent below 44: otherwise the
            // power would already exceed the argument bound.
            if k + 1 > 43 {
                lemma_pow2_monotonic(44, k + 1);
                assert(spec_pow2(44) == 0x1000_0000_0000) by {
                    reveal_with_fuel(spec_pow2, 45);
                }
            }
        }
        p = p * 2;
        k = k + 1;
    }
    proof {
        lemma_floor_log2_unique(x as int, k as int);
        lemma_div_pos_is_pos((x - p) * LN2_MICRO, p as int);
        // The interpolation term stays below ln 2: the remainder of the
        // division is what keeps `(x - p) * LN2_MICRO` under `p * LN2_MICRO`.
        lemma_fundamental_div_mod((x - p) * LN2_MICRO, p as int);
        let q = (x - p) * LN2_MICRO / (p as int);
        assert((x - p) * LN2_MICRO < p * LN2_MICRO) by (nonlinear_arith)
            requires
                1 <= p,
                p <= x,
                x < 2 * p,
        {
        }
        assert(q < LN2_MICRO) by (nonlinear_arith)
            requires
                1 <= p,
                p * q + ((x - p) * LN2_MICRO) % (p as int) == (x - p) * LN2_MICRO,
                0 <= ((x - p) * LN2_MICRO) % (p as int),
                (x - p) * LN2_MICRO < p * LN2_MICRO,
        {
        }
        lemma_ln_micro_lower_bounds(x as int);
    }
    let frac = (x - p) * LN2_MICRO / p;
    LN2_MICRO * k + frac
}

pub open spec fn spec_rock_cap(depth: int) -> int {
    min(ROCK_CAP_BASE + 1000 * max(depth - ROCK_RAMP_START, 0), ROCK_CAP_MAX as int)
}

/// Chance of a rock block at `depth` pixels, in micro-units: a hundredth
/// of the logarithm of the depth, held under a cap that itself ramps from
/// 30% toward 80% below `ROCK_RAMP_START`.
pub open spec fn spec_rock_probability(depth: int) -> int {
    min(spec_ln_micro(max(depth, 1)) / 100, spec_rock_cap(depth))
}

pub open spec fn spec_gold_cap(depth: int) -> int {
    min(GOLD_CAP_BASE + 1000 * max(depth - GOLD_DEPTH, 0), GOLD_CAP_MAX as int)
}

/// Chance of a gold block at `depth` pixels, in micro-units: zero down to
/// `GOLD_DEPTH`, then two thousandths of the logarithm of the depth past
/// it, held under a cap that ramps from 2% toward 20%.
pub open spec fn spec_gold_probability(depth: int) -> int {
    if depth > GOLD_DEPTH {
        min(spec_ln_micro(depth - GOLD_DEPTH) / 500, spec_gold_cap(depth))
    } else {
        0
    }
}

pub fn rock_probability_micro(depth: i64) -> (r: i64)
    requires
        0 <= depth <= MAX_DEPTH,
    ensures
        r == spec_rock_probability(depth as int),
        0 <= r <= ROCK_CAP_MAX,
{
    let clamped = if depth < 1 {
        1
    } else {
        depth
    };
    let ln = ln_micro(clamped);
    let scaled = ln / 100;
    let ramp = if depth > ROCK_RAMP_START {
        depth - ROCK_RAMP_START
    } else {
        0
    };
    let cap_raw = ROCK_CAP_BASE + 1000 * ramp;
    let cap = if cap_raw < ROCK_CAP_MAX {
        cap_raw
    } else {
        ROCK_CAP_MAX
    };
    proof {
        lemma_div_pos_is_pos(ln as int, 100);
    }
    if scaled < cap {
        scaled
    } else {
        cap
    }
}

pub fn gold_probability_micro(depth: i64) -> (r: i64)
    requires
        0 <= depth <= MAX_DEPTH,
    ensures
        r == spec_gold_probability(depth as int),
        0 <= r <= GOLD_CAP_MAX,
{
    if depth <= GOLD_DEPTH {
        return 0;
    }
    let ln = ln_micro(depth - GOLD_DEPTH);
    let scaled = ln / 500;
    let cap_raw = GOLD_CAP_BASE + 1000 * (depth - GOLD_DEPTH);
    let cap = if cap_raw < GOLD_CAP_MAX {
        cap_raw
    } else {
        GOLD_CAP_MAX
    };
    proof {
        lemma_div_pos_is_pos(ln as int, 500);
    }
    if scaled < cap {
        scaled
    } else {
        cap
    }
}

/// Both rarity weights stay inside their caps at every depth, their sum
/// never exceeds probability one, and no gold appears at or above the
/// gold threshold.
pub proof fn lemma_probabilities_within_caps(depth: int)
    ensures
        0 <= spec_rock_probability(depth) <= ROCK_CAP_MAX,
        0 <= spec_gold_probability(depth) <= GOLD_CAP_MAX,
        spec_gold_probability(depth) + spec_rock_probability(depth) <= PROB_SCALE,
        depth <= GOLD_DEPTH ==> spec_gold_probability(depth) == 0,
{
    lemma_ln_micro_lower_bounds(max(depth, 1));
    lemma_div_pos_is_pos(spec_ln_micro(max(depth, 1)), 100);
    if depth > GOLD_DEPTH {
        lemma_ln_micro_lower_bounds(depth - GOLD_DEPTH);
        lemma_div_pos_is_pos(spec_ln_micro(depth - GOLD_DEPTH), 500);
    }
}

/// Gold genuinely appears once the row sits more than one pixel past the
/// gold threshold: its probability is strictly positive there.
pub proof fn lemma_gold_appears_past_threshold(depth: int)
    requires
        depth > GOLD_DEPTH + 1,
    ensures
        spec_gold_probability(depth) > 0,
{
    lemma_ln_micro_lower_bounds(depth - GOLD_DEPTH);
    lemma_div_is_ordered(LN2_MICRO as int, spec_ln_micro(depth - GOLD_DEPTH), 500);
    assert(LN2_MICRO / 500 == 1386);
}

/// Which material a uniform draw `r` from `[0, PROB_SCALE)` selects at
/// `depth` pixels: gold first, then rock, then dirt.
pub open spec fn spec_pick_block_type(r: int, depth: int) -> BlockType {
    if r < spec_gold_probability(depth) {
        BlockType::Gold
    } else if r < spec_gold_probability(depth) + spec_rock_probability(depth) {
        BlockType::Rock
    } else {
        BlockType::Dirt
    }
}

pub fn pick_block_type(r: i64, depth: i64) -> (block_type: BlockType)
    requires
        0 <= r < PROB_SCALE,
        0 <= depth <= MAX_DEPTH,
    ensures
        block_type == spec_pick_block_type(r as int, depth as int),
{
    let gold_probability = gold_probability_micro(depth);
    let rock_probability = rock_probability_micro(depth);
    if r < gold_probability {
        BlockType::Gold
    } else if r < gold_probability + rock_probability {
        BlockType::Rock
    } else {
        BlockType::Dirt
    }
}

/// What holds of the block spawned at `column` of a row at `row_y`
/// millipixels: a fresh full-health block of one block size, sitting at
/// `column` block widths from the left, whose material was selected by
/// some uniform draw at the row's depth.
pub open spec fn spec_spawned_block(b: Block, column: int, row_y: int) -> bool {
    &&& b.shape == (Shape {
        x: (column * BLOCK_SIZE) as i64,
        y: row_y as i64,
        width: BLOCK_SIZE,
        height: BLOCK_SIZE,
    })
    &&& b.base_hp == b.block_type.spec_base_hp()
    &&& b.hp == b.base_hp
    &&& exists|r: int|
        0 <= r < PROB_SCALE && b.block_type == #[trigger] spec_pick_block_type(r, row_y / 1000)
}

/// Neighbouring blocks of one spawned row line up: the x coordinate
/// strictly increases by exactly one block size per column and the y
/// coordinate is the same for the whole row.
pub proof fn lemma_spawned_row_aligned(b1: Block, b2: Block, column: int, row_y: int)
    requires
        0 <= column,
        column + 1 <= MAX_COLUMNS,
        0 <= row_y <= COORD_LIMIT,
        spec_spawned_block(b1, column, row_y),
        spec_spawned_block(b2, column + 1, row_y),
    ensures
        b2.shape.x == b1.shape.x + BLOCK_SIZE,
        b2.shape.y == b1.shape.y,
{
}

/// Appends one row of freshly generated blocks: one per column, left to
/// right, each one block size wide and tall, at the given row height.
pub fn spawn_row_of_blocks(blocks: &mut Vec<Block>, needed_x: usize, y: i64)
    requires
        0 <= y <= COORD_LIMIT,
        needed_x <= MAX_COLUMNS,
    ensures
        final(blocks).len() == old(blocks).len() + needed_x,
        forall|j: int| 0 <= j < old(blocks).len() ==> final(blocks)[j] == old(blocks)[j],
        forall|j: int|
            old(blocks).len() <= j < final(blocks).len() ==> spec_spawned_block(
                final(blocks)[j],
                j - old(blocks).len(),
                y as int,
            ),
        forall|j: int|
            old(blocks).len() <= j < final(blocks).len() ==> final(blocks)[j].wf(),
{
    let ghost orig: Seq<Block> = blocks@;
    let depth = y / 1000;
    proof {
        lemma_div_pos_is_pos(y as int, 1000);
        lemma_div_is_ordered(y as int, COORD_LIMIT as int, 1000);
        assert(COORD_LIMIT / 1000 < MAX_DEPTH);
    }
    let mut i: usize = 0;
    while i < needed_x
        invariant
            i <= needed_x,
            needed_x <= MAX_COLUMNS,
            0 <= y <= COORD_LIMIT,
            depth == y as int / 1000,
            0 <= depth <= MAX_DEPTH,
            blocks@.len() == orig.len() + i,
            forall|j: int| 0 <= j < orig.len() ==> blocks@[j] == orig[j],
            forall|j: int|
                orig.len() <= j < blocks@.len() ==> spec_spawned_block(
                    blocks@[j],
                    j - orig.len(),
                    y as int,
                ),
            forall|j: int| orig.len() <= j < blocks@.len() ==> blocks@[j].wf(),
        decreases needed_x - i,
    {
        let raw = random_u32();
        let r = (raw % 1000000) as i64;
        let block_type = pick_block_type(r, depth);
        let shape = Shape {
            x: (i as i64) * BLOCK_SIZE,
            y,
            width: BLOCK_SIZE,
            height: BLOCK_SIZE,
        };
        let b = Block::new(shape, block_type);
        proof {
            assert(0 <= r < PROB_SCALE && b.block_type == spec_pick_block_type(
                r as int,
                y as int / 1000,
            ));
        }
        blocks.push(b);
        i = i + 1;
    }
}

} // verus!
