use vstd::math::max;
use vstd::prelude::*;

use crate::score::Score;
use crate::shape::Shape;

verus! {

/// The closed set of minable materials. The kind fixes a block's base hit
/// points and the score and gold awarded for destroying it.
#[derive(Clone, Copy, PartialEq, Eq, Structural, Debug)]
pub enum BlockType {
    Dirt,
    Rock,
    Gold,
}

impl BlockType {
    pub open spec fn spec_base_hp(self) -> int {
        match self {
            BlockType::Dirt => 50,
            BlockType::Rock => 70,
            BlockType::Gold => 100,
        }
    }

    pub fn base_hp(self) -> (r: i32)
        ensures
            r == self.spec_base_hp(),
    {
        match self {
            BlockType::Dirt => 50,
            BlockType::Rock => 70,
            BlockType::Gold => 100,
        }
    }

    pub open spec fn spec_score_reward(self) -> int {
        match self {
            BlockType::Dirt => 1,
            BlockType::Rock => 3,
            BlockType::Gold => 10,
        }
    }

    pub open spec fn spec_gold_reward(self) -> int {
        self.spec_score_reward()
    }

    pub fn score_reward(self) -> (r: i32)
        ensures
            r == self.spec_score_reward(),
    {
        match self {
            BlockType::Dirt => 1,
            BlockType::Rock => 3,
            BlockType::Gold => 10,
        }
    }

    pub fn gold_reward(self) -> (r: i32)
        ensures
            r == self.spec_gold_reward(),
    {
        self.score_reward()
    }
}

/// Which of the four damage-state frames a block with `hp` of `base_hp`
/// hit points left shows: 1 while at least three quarters remain, then 2,
/// 3, and 4 below one quarter. The comparisons are the integer form of
/// `hp / base_hp >= 3/4` and so on.
pub open spec fn spec_bucket(hp: int, base_hp: int) -> int {
    if 4 * hp >= 3 * base_hp {
        1
    } else if 2 * hp >= base_hp {
        2
    } else if 4 * hp >= base_hp {
        3
    } else {
        4
    }
}

/// The bucket is always one of 1, 2, 3, 4.
pub proof fn lemma_bucket_range(hp: int, base_hp: int)
    ensures
        1 <= spec_bucket(hp, base_hp) <= 4,
{
}

/// For a fixed `base_hp`, the bucket never decreases as hit points are
/// lost: a block with fewer hit points shows an equal or later damage
/// frame.
pub proof fn lemma_bucket_monotonic(hp1: int, hp2: int, base_hp: int)
    requires
        hp1 <= hp2,
    ensures
        spec_bucket(hp2, base_hp) <= spec_bucket(hp1, base_hp),
{
}

/// A destructible world tile: a rectangle, a material, and its remaining
/// hit points.
#[derive(Clone, Copy, PartialEq, Eq, Structural, Debug)]
pub struct Block {
    pub shape: Shape,
    pub block_type: BlockType,
    pub base_hp: i32,
    pub hp: i32,
}

impl Block {
    /// Hit points never leave `0 ..= base_hp`, and `base_hp` is the fixed
    /// value the material prescribes.
    pub open spec fn wf(self) -> bool {
        &&& self.shape.wf()
        &&& self.base_hp == self.block_type.spec_base_hp()
        &&& 0 <= self.hp <= self.base_hp
    }

    pub open spec fn spec_destroyed(self) -> bool {
        self.hp <= 0
    }

    /// The block after one hit of `amount`: hit points are reduced and
    /// floored at zero.
    pub open spec fn spec_damaged(self, amount: int) -> Block {
        Block { hp: max(self.hp - amount, 0) as i32, ..self }
    }

    /// Whether one hit of `amount` is the destroying hit: it lands on a
    /// live block and leaves it at zero hit points.
    pub open spec fn spec_destroys(self, amount: int) -> bool {
        self.hp > 0 && self.hp - amount <= 0
    }

    pub fn new(shape: Shape, block_type: BlockType) -> (b: Block)
        ensures
            b.shape == shape,
            b.block_type == block_type,
            b.base_hp == block_type.spec_base_hp(),
            b.hp == b.base_hp,
            shape.wf() ==> b.wf(),
    {
        let base_hp = block_type.base_hp();
        Block { shape, block_type, base_hp, hp: base_hp }
    }

    pub fn is_destroyed(&self) -> (r: bool)
        ensures
            r == self.spec_destroyed(),
    {
        self.hp <= 0
    }

    /// Applies one mining hit. Returns true exactly when this call is the
    /// one that destroys the block; a hit on an already-destroyed block
    /// leaves it at zero hit points and reports nothing.
    pub fn subtract_block_hp(&mut self, hp_to_subtract: i32) -> (destroyed_now: bool)
        requires
            old(self).wf(),
            0 <= hp_to_subtract,
        ensures
            *final(self) == old(self).spec_damaged(hp_to_subtract as int),
            destroyed_now == old(self).spec_destroys(hp_to_subtract as int),
            final(self).wf(),
    {
        let remaining = self.hp - hp_to_subtract;
        if remaining <= 0 {
            let was_alive = self.hp > 0;
            self.hp = 0;
            was_alive
        } else {
            self.hp = remaining;
            false
        }
    }

    pub fn damage_ratio_bucket(&self) -> (bucket: i32)
        requires
            self.wf(),
        ensures
            bucket == spec_bucket(self.hp as int, self.base_hp as int),
            1 <= bucket <= 4,
    {
        if 4 * self.hp >= 3 * self.base_hp {
            1
        } else if 2 * self.hp >= self.base_hp {
            2
        } else if 4 * self.hp >= self.base_hp {
            3
        } else {
            4
        }
    }

    /// The frame of the damage-state strip to draw, as a rectangle in
    /// texture pixels: the strip holds four 32 by 32 frames side by side,
    /// and the damage-ratio bucket selects the column.
    pub fn texture_selector(&self) -> (frame: Shape)
        requires
            self.wf(),
        ensures
            frame == (Shape {
                x: ((spec_bucket(self.hp as int, self.base_hp as int) - 1) * 32) as i64,
                y: 0,
                width: 32,
                height: 32,
            }),
    {
        let bucket = self.damage_ratio_bucket();
        Shape { x: ((bucket - 1) * 32) as i64, y: 0, width: 32, height: 32 }
    }

    /// The score after this block's destruction has been awarded: the
    /// kind's score and gold values are added and the destroyed-block
    /// count grows by one, each total saturating at `i32::MAX`.
    pub open spec fn spec_award(self, s: Score) -> Score {
        Score {
            current_score: spec_add_capped(s.current_score as int, self.block_type.spec_score_reward()) as i32,
            blocks_destroyed: spec_add_capped(s.blocks_destroyed as int, 1) as i32,
            gold: spec_add_capped(s.gold as int, self.block_type.spec_gold_reward()) as i32,
        }
    }

    /// Awards the destruction of this block.
    pub fn update_score(&self, score: &mut Score)
        requires
            old(score).wf(),
        ensures
            *final(score) == self.spec_award(*old(score)),
            final(score).wf(),
    {
        score.blocks_destroyed = add_counter(score.blocks_destroyed, 1);
        score.current_score = add_counter(score.current_score, self.block_type.score_reward());
        score.gold = add_counter(score.gold, self.block_type.gold_reward());
    }
}

/// A counter update that cannot wrap: the sum, saturating at `i32::MAX`.
pub open spec fn spec_add_capped(a: int, b: int) -> int {
    if a + b <= i32::MAX {
        a + b
    } else {
        i32::MAX as int
    }
}

fn add_counter(a: i32, b: i32) -> (r: i32)
    requires
        0 <= a,
        0 <= b,
    ensures
        r == spec_add_capped(a as int, b as int),
{
    if a <= i32::MAX - b {
        a + b
    } else {
        i32::MAX
    }
}

/// Hit points stay within bounds under any hit: damaging a well-formed
/// block yields a well-formed block, so `0 <= hp <= base_hp` holds after
/// any sequence of `subtract_block_hp` calls.
pub proof fn lemma_damage_keeps_hp_bounds(b: Block, amount: int)
    requires
        b.wf(),
        0 <= amount,
    ensures
        b.spec_damaged(amount).wf(),
        0 <= b.spec_damaged(amount).hp <= b.base_hp,
{
}

/// A block reports its destruction exactly once: after the hit that
/// destroyed it, no later hit reports a destruction again.
pub proof fn lemma_destruction_reported_once(b: Block, first: int, later: int)
    requires
        b.wf(),
        0 <= first,
        0 <= later,
        b.spec_destroys(first),
    ensures
        !b.spec_damaged(first).spec_destroys(later),
{
}

} // verus!
