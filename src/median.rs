//! Median time past over a window of eleven block timestamps.
use vstd::prelude::*;
use vstd::relations::{sorted_by, total_ordering};
use vstd::seq_lib::{lemma_sorted_unique, group_to_multiset_ensures, to_multiset_insert};

verus! {

/// Number of blocks whose timestamps make up the window.
pub const WINDOW_LEN: usize = 11;

/// Position of the median in the sorted window.
pub const MEDIAN_INDEX: usize = 5;

/// Number of timestamps fetched as one batch (all of the window but its newest block).
pub const BATCH_LEN: usize = 10;

/// The order on timestamps.
pub open spec fn time_leq() -> spec_fn(u32, u32) -> bool {
    |a: u32, b: u32| a <= b
}

/// The timestamps of `s` in ascending order.
pub open spec fn sorted_times(s: Seq<u32>) -> Seq<u32> {
    s.sort_by(time_leq())
}

/// The median time past of an eleven-timestamp window: the value at
/// position five of the window in ascending order.
pub open spec fn median_time(s: Seq<u32>) -> u32 {
    sorted_times(s)[MEDIAN_INDEX as int]
}

proof fn lemma_time_leq_total()
    ensures
        total_ordering(time_leq()),
{
}

/// `t` is `s` in ascending order, whatever order `s` came in.
proof fn lemma_sorted_times_unique(s: Seq<u32>, t: Seq<u32>)
    requires
        sorted_by(t, time_leq()),
        t.to_multiset() == s.to_multiset(),
    ensures
        t == sorted_times(s),
        sorted_times(s).len() == s.len(),
{
    lemma_time_leq_total();
    s.lemma_sort_by_ensures(time_leq());
    lemma_sorted_unique(t, sorted_times(s), time_leq());
    t.to_multiset_ensures();
    s.to_multiset_ensures();
}

/// The sorted window, and so its median, depend only on which timestamps it
/// holds: two windows with the same timestamps, in any order, have the same
/// median.
pub proof fn lemma_median_order_independent(a: Seq<u32>, b: Seq<u32>)
    requires
        a.len() == WINDOW_LEN,
        a.to_multiset() == b.to_multiset(),
    ensures
        sorted_times(a) == sorted_times(b),
        median_time(a) == median_time(b),
{
    lemma_time_leq_total();
    a.lemma_sort_by_ensures(time_leq());
    b.lemma_sort_by_ensures(time_leq());
    lemma_sorted_unique(sorted_times(a), sorted_times(b), time_leq());
}

/// The median is one of the window's timestamps, no more than five
/// timestamps of the window precede it in ascending order and no more than
/// five follow it: it is the sixth smallest.
pub proof fn lemma_median_rank(s: Seq<u32>)
    requires
        s.len() == WINDOW_LEN,
    ensures
        s.contains(median_time(s)),
        sorted_times(s).len() == WINDOW_LEN,
        forall|i: int| 0 <= i < MEDIAN_INDEX ==> sorted_times(s)[i] <= median_time(s),
        forall|i: int| MEDIAN_INDEX < i < WINDOW_LEN ==> median_time(s) <= sorted_times(s)[i],
{
    lemma_time_leq_total();
    s.lemma_sort_by_ensures(time_leq());
    let t = sorted_times(s);
    t.to_multiset_ensures();
    s.to_multiset_ensures();
    assert(t.len() == s.len());
    assert(t.to_multiset().count(t[5]) > 0);
    assert(s.to_multiset().count(t[5]) > 0);
    assert forall|i: int| 0 <= i < MEDIAN_INDEX implies t[i] <= median_time(s) by {
        assert(time_leq()(t[i], t[5]));
    }
    assert forall|i: int| MEDIAN_INDEX < i < WINDOW_LEN implies median_time(s) <= t[i] by {
        assert(time_leq()(t[5], t[i]));
    }
}

/// Returns the timestamps of `v` in ascending order.
pub fn sort_times(v: &Vec<u32>) -> (r: Vec<u32>)
    ensures
        r@ == sorted_times(v@),
{
    broadcast use group_to_multiset_ensures, to_multiset_insert;

    let mut out: Vec<u32> = Vec::new();
    for i in 0..v.len()
        invariant
            out@.to_multiset() == v@.subrange(0, i as int).to_multiset(),
            sorted_by(out@, time_leq()),
    {
        let x = v[i];
        let mut j: usize = 0;
        while j < out.len() && out[j] <= x
            invariant
                j <= out.len(),
                forall|k: int| 0 <= k < j ==> out@[k] <= x,
            decreases out.len() - j,
        {
            j = j + 1;
        }
        proof {
            assert(forall|k: int| j <= k < out@.len() ==> x < out@[k]) by {
                assert forall|k: int| j <= k < out@.len() implies x < out@[k] by {
                    assert(time_leq()(out@[j as int], out@[k]));
                }
            }
        }
        let ghost before = out@;
        out.insert(j, x);
        proof {
            assert(v@.subrange(0, i + 1) == v@.subrange(0, i as int).push(x));
            to_multiset_insert(before, j as int, x);
            v@.subrange(0, i as int).to_multiset_ensures();
            assert(out@.to_multiset() == v@.subrange(0, i + 1).to_multiset());
            assert forall|a: int, b: int| 0 <= a < b < out@.len() implies #[trigger] time_leq()(
                out@[a],
                out@[b],
            ) by {
                if b < j {
                } else if a > j {
                    assert(time_leq()(before[a - 1], before[b - 1]));
                } else if a == j {
                } else {
                    assert(time_leq()(before[a], before[b - 1]));
                }
            }
        }
    }
    proof {
        assert(v@.subrange(0, v@.len() as int) == v@);
        lemma_sorted_times_unique(v@, out@);
    }
    out
}

/// The median time past of a window of eleven timestamps, in any order.
pub fn median_of_window(window: &Vec<u32>) -> (r: u32)
    requires
        window@.len() == WINDOW_LEN,
    ensures
        r == median_time(window@),
{
    let sorted = sort_times(window);
    proof {
        lemma_median_rank(window@);
    }
    sorted[MEDIAN_INDEX]
}

/// The median time past of the window made of a batch of ten timestamps and
/// the timestamp of the newest block.
pub fn median_time_past(batch: &Vec<u32>, newest: u32) -> (r: u32)
    requires
        batch@.len() == BATCH_LEN,
    ensures
        r == median_time(batch@.push(newest)),
{
    let mut window: Vec<u32> = batch.clone();
    window.push(newest);
    median_of_window(&window)
}

} // verus!
