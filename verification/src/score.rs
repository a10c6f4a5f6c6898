use vstd::prelude::*;

verus! {

/// Running totals for the play session: points, number of blocks broken,
/// and gold (the currency the shop spends).
#[derive(Clone, Copy, PartialEq, Eq, Structural, Debug)]
pub struct Score {
    pub current_score: i32,
    pub blocks_destroyed: i32,
    pub gold: i32,
}

impl Score {
    /// All counters stay non-negative: they only grow, except for gold,
    /// which is spent through the currency-gated shop.
    pub open spec fn wf(self) -> bool {
        &&& 0 <= self.current_score
        &&& 0 <= self.blocks_destroyed
        &&& 0 <= self.gold
    }

    pub fn init() -> (s: Score)
        ensures
            s.current_score == 0,
            s.blocks_destroyed == 0,
            s.gold == 0,
            s.wf(),
    {
        Score { current_score: 0, blocks_destroyed: 0, gold: 0 }
    }
}

} // verus!
