use vstd::prelude::*;

use crate::shape::Shape;

verus! {

/// Downward speed the player starts with, in millipixels per second.
pub const MOVEMENT_SPEED: i64 = 1000;

/// Edge of the player's square sprite, in millipixels (32 screen pixels).
pub const PLAYER_SIZE: i64 = 32000;

/// Terminal fall speed, in millipixels per second: gravity integration
/// saturates here so that per-frame arithmetic stays far from `i64`
/// overflow.
pub const SPEED_CAP: i64 = 0x100_0000_0000;

/// Bound on the magnitude of the accumulated fall offset, in millipixels;
/// the physics saturates here for the same reason.
pub const OFFSET_LIMIT: i64 = 0x4_0000_0000_0000;

/// The player's tool tier. Each tier removes a fixed number of hit points
/// per mining hit, and the two upper tiers are bought in the shop.
#[derive(Clone, Copy, PartialEq, Eq, Structural, Debug)]
pub enum Pickaxe {
    Normal,
    Iron,
    Gold,
}

impl Pickaxe {
    /// Hit points removed by one mining hit with this tier.
    pub open spec fn spec_damage(self) -> int {
        match self {
            Pickaxe::Normal => 10,
            Pickaxe::Iron => 25,
            Pickaxe::Gold => 50,
        }
    }

    pub fn damage(self) -> (r: i32)
        ensures
            r == self.spec_damage(),
    {
        match self {
            Pickaxe::Normal => 10,
            Pickaxe::Iron => 25,
            Pickaxe::Gold => 50,
        }
    }

    /// Position in the upgrade order; purchases only ever move upward.
    pub open spec fn spec_tier(self) -> int {
        match self {
            Pickaxe::Normal => 0,
            Pickaxe::Iron => 1,
            Pickaxe::Gold => 2,
        }
    }

    pub fn tier(self) -> (r: i32)
        ensures
            r == self.spec_tier(),
    {
        match self {
            Pickaxe::Normal => 0,
            Pickaxe::Iron => 1,
            Pickaxe::Gold => 2,
        }
    }

    /// Gold the shop charges for this tier. The starting tier is never
    /// bought, so its price is zero.
    pub open spec fn spec_price(self) -> int {
        match self {
            Pickaxe::Normal => 0,
            Pickaxe::Iron => 50,
            Pickaxe::Gold => 150,
        }
    }

    pub fn price(self) -> (r: i32)
        ensures
            r == self.spec_price(),
    {
        match self {
            Pickaxe::Normal => 0,
            Pickaxe::Iron => 50,
            Pickaxe::Gold => 150,
        }
    }
}

/// The falling miner: a rectangle, the vertical physics state, and the
/// equipped pickaxe. `offset_y` accumulates how far the player has fallen
/// below the top of the block area (it grows negative while falling) and
/// `speed` is the current downward speed in millipixels per second.
#[derive(Clone, Copy, PartialEq, Eq, Structural, Debug)]
pub struct Player {
    pub shape: Shape,
    pub speed: i64,
    pub offset_y: i64,
    pub current_pickaxe: Pickaxe,
}

impl Player {
    pub open spec fn wf(self) -> bool {
        &&& self.shape.wf()
        &&& 0 <= self.speed <= SPEED_CAP
        &&& -OFFSET_LIMIT <= self.offset_y <= OFFSET_LIMIT
    }

    pub fn new(shape: Shape) -> (p: Player)
        ensures
            p.shape == shape,
            p.speed == MOVEMENT_SPEED,
            p.offset_y == 0,
            p.current_pickaxe == Pickaxe::Normal,
            shape.wf() ==> p.wf(),
    {
        Player { shape, speed: MOVEMENT_SPEED, offset_y: 0, current_pickaxe: Pickaxe::Normal }
    }
}

} // verus!
