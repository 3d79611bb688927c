use vstd::prelude::*;

verus! {

/// What the eviction engine reports for one access.
#[derive(Debug, Clone, Copy, PartialEq, Eq, Structural)]
pub enum AccessResult {
    Hit,
    Miss,
}

/// Running counters of a trace replay. The miss ratio they stand for is
/// `total_misses / total_accesses`, and 0 while no access has been recorded.
#[derive(Debug, Clone, Copy, PartialEq, Eq, Structural)]
pub struct MissRatioAccumulator {
    pub total_accesses: usize,
    pub total_misses: usize,
}

impl MissRatioAccumulator {
    /// The counters describe a ratio in `[0, 1]`.
    pub open spec fn is_valid(self) -> bool {
        self.total_misses <= self.total_accesses
    }

    pub fn new() -> (r: MissRatioAccumulator)
        ensures
            r.total_accesses == 0,
            r.total_misses == 0,
    {
        MissRatioAccumulator { total_accesses: 0, total_misses: 0 }
    }

    /// Counts one access, and one miss when `result` is a miss.
    pub fn record(&mut self, result: AccessResult)
        requires
            old(self).is_valid(),
            old(self).total_accesses < usize::MAX,
        ensures
            final(self).is_valid(),
            final(self).total_accesses == old(self).total_accesses + 1,
            final(self).total_misses == old(self).total_misses + if result == AccessResult::Miss {
                1int
            } else {
                0int
            },
    {
        self.total_accesses = self.total_accesses + 1;
        if result == AccessResult::Miss {
            self.total_misses = self.total_misses + 1;
        }
    }
}

} // verus!
