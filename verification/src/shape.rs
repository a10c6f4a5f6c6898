use vstd::prelude::*;

verus! {

/// Bound on the magnitude of any coordinate held in a `Shape`, generous
/// enough that sums of two in-range coordinates stay far from `i64`
/// overflow.
pub const COORD_LIMIT: i64 = 0x10_0000_0000_0000;

/// An axis-aligned rectangle with its origin at the top-left corner.
/// Coordinates and sizes throughout the game world are measured in
/// millipixels, one screen pixel being 1000 units: this keeps sub-pixel
/// physics (velocities, per-frame offsets) in integers.
#[derive(Clone, Copy, PartialEq, Eq, Structural, Debug)]
pub struct Shape {
    pub x: i64,
    pub y: i64,
    pub width: i64,
    pub height: i64,
}

impl Shape {
    /// Dimensions are non-negative and every coordinate is small enough
    /// that rectangle arithmetic cannot overflow.
    pub open spec fn wf(self) -> bool {
        &&& -COORD_LIMIT <= self.x <= COORD_LIMIT
        &&& -COORD_LIMIT <= self.y <= COORD_LIMIT
        &&& 0 <= self.width <= COORD_LIMIT
        &&& 0 <= self.height <= COORD_LIMIT
    }
}

} // verus!
