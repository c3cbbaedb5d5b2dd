//! Memo of coin times by confirming height.
use vstd::prelude::*;
use std::collections::HashMap;

verus! {

broadcast use vstd::std_specs::hash::group_hash_axioms;

/// Coin times already computed, by confirming height. A height, once
/// stored, keeps its first value.
pub struct CoinTimeCache {
    times: HashMap<u32, u32>,
}

impl View for CoinTimeCache {
    type V = Map<u32, u32>;

    closed spec fn view(&self) -> Map<u32, u32> {
        self.times@
    }
}

/// The cache after storing `time` under `height`: unchanged where the height
/// is already present.
pub open spec fn cache_store(m: Map<u32, u32>, height: u32, time: u32) -> Map<u32, u32> {
    if m.contains_key(height) {
        m
    } else {
        m.insert(height, time)
    }
}

/// What a lookup of `height` finds.
pub open spec fn cache_lookup(m: Map<u32, u32>, height: u32) -> Option<u32> {
    if m.contains_key(height) {
        Some(m[height])
    } else {
        None
    }
}

impl CoinTimeCache {
    /// An empty cache.
    pub fn new() -> (r: CoinTimeCache)
        ensures
            r@ == Map::<u32, u32>::empty(),
    {
        CoinTimeCache { times: HashMap::new() }
    }

    /// The coin time stored for `height`, if any.
    pub fn lookup(&self, height: u32) -> (r: Option<u32>)
        ensures
            r == cache_lookup(self@, height),
    {
        match self.times.get(&height) {
            Some(t) => Some(*t),
            None => None,
        }
    }

    /// Stores `time` under `height` unless the height is already present.
    pub fn store(&mut self, height: u32, time: u32)
        ensures
            final(self)@ == cache_store(old(self)@, height, time),
    {
        if !self.times.contains_key(&height) {
            self.times.insert(height, time);
        }
    }

    /// The number of heights stored.
    pub fn len(&self) -> (r: usize)
        ensures
            r == self@.len(),
            self@.dom().finite(),
    {
        self.times.len()
    }
}

/// A height is found only once it has been stored, with the first value
/// stored for it; storing it again changes nothing, so every lookup after
/// the first store is a hit with that value.
pub proof fn lemma_store_then_hit(m: Map<u32, u32>, height: u32, time: u32, later: u32)
    requires
        cache_lookup(m, height) is None,
    ensures
        cache_lookup(cache_store(m, height, time), height) == Some(time),
        cache_store(cache_store(m, height, time), height, later) == cache_store(m, height, time),
        cache_lookup(cache_store(cache_store(m, height, time), height, later), height) == Some(time),
{
}

/// Storing under one height leaves what every other height finds unchanged.
pub proof fn lemma_store_keeps_others(m: Map<u32, u32>, height: u32, time: u32, other: u32)
    requires
        other != height,
    ensures
        cache_lookup(cache_store(m, height, time), other) == cache_lookup(m, other),
{
}

} // verus!
