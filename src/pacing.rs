//! Minimum spacing between the processing of successive inputs.
use vstd::prelude::*;

verus! {

/// The minimum time, in milliseconds, that processing one input must take,
/// by whether its coin time came from the cache.
#[derive(Debug, Clone, Copy, PartialEq, Eq)]
pub struct PacingPolicy {
    pub hit_interval_ms: u64,
    pub miss_interval_ms: u64,
}

/// The interval that applies to an input.
pub open spec fn interval_for(p: PacingPolicy, was_hit: bool) -> u64 {
    if was_hit {
        p.hit_interval_ms
    } else {
        p.miss_interval_ms
    }
}

impl PacingPolicy {
    /// 120 ms after a cache hit, 320 ms after a miss.
    pub fn standard() -> (r: PacingPolicy)
        ensures
            r.hit_interval_ms == 120,
            r.miss_interval_ms == 320,
    {
        PacingPolicy { hit_interval_ms: 120, miss_interval_ms: 320 }
    }

    /// How long to wait after an input whose processing took `elapsed_ms`.
    pub fn remaining_delay_ms(&self, elapsed_ms: u64, was_hit: bool) -> (r: u64)
        ensures
            elapsed_ms < interval_for(*self, was_hit) ==> r == interval_for(*self, was_hit) - elapsed_ms,
            elapsed_ms >= interval_for(*self, was_hit) ==> r == 0,
            elapsed_ms + r >= interval_for(*self, was_hit),
    {
        let interval = if was_hit {
            self.hit_interval_ms
        } else {
            self.miss_interval_ms
        };
        if elapsed_ms < interval {
            interval - elapsed_ms
        } else {
            0
        }
    }
}

} // verus!
