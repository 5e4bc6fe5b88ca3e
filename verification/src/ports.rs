//! The global port-range allocator.
//!
//! The supervisor owns a single allocator and draws one contiguous port
//! slice per endpoints worker, in process construction order and strictly
//! before any fork, so every child inherits a globally consistent port map.

use vstd::prelude::*;

verus! {

/// The sum of a sequence of port-slice sizes.
pub open spec fn draws_total(draws: Seq<int>) -> int
    decreases draws.len(),
{
    if draws.len() == 0 {
        0
    } else {
        draws_total(draws.drop_last()) + draws.last()
    }
}

/// Where the slice for draw `i` starts when the allocator began at `base`:
/// past the slices of all earlier draws.
pub open spec fn slice_start(base: int, draws: Seq<int>, i: int) -> int {
    base + draws_total(draws.take(i))
}

/// A contiguous port interval `[start, start + length)` owned by one
/// endpoints worker.
#[derive(Debug, Clone, Copy, PartialEq, Eq, Structural)]
pub struct PortRange {
    pub start: u16,
    pub length: u16,
}

impl PortRange {
    pub fn new(start: u16, length: u16) -> (r: PortRange)
        requires
            start + length <= 65535,
        ensures
            r.start == start,
            r.length == length,
    {
        PortRange { start, length }
    }

    pub fn get_range(&self) -> (r: core::ops::Range<u16>)
        requires
            self.start + self.length <= 65535,
        ensures
            r.start == self.start,
            r.end == self.start + self.length,
    {
        let end = self.start + self.length;
        self.start..end
    }
}

/// The allocator: a single cursor that starts at the first non-reserved
/// port and only ever moves forward.
#[derive(Debug, Clone, Copy, PartialEq, Eq, Structural)]
pub struct PortAllocator {
    pub cursor: u16,
}

impl PortAllocator {
    pub fn new() -> (a: PortAllocator)
        ensures
            a.cursor == 1024,
    {
        PortAllocator { cursor: 1024 }
    }

    /// How many ports are still available past the cursor.
    pub fn remaining(&self) -> (n: u16)
        ensures
            n == 65535 - self.cursor,
    {
        65535 - self.cursor
    }

    /// Reserve the next `n` ports: the returned slice begins exactly at the
    /// old cursor, and the cursor advances by `n`. A draw of zero returns an
    /// empty slice and leaves the cursor unchanged.
    pub fn allocate(&mut self, n: u16) -> (slice: PortRange)
        requires
            old(self).cursor + n <= 65535,
        ensures
            final(self).cursor == old(self).cursor + n,
            slice.start == old(self).cursor,
            slice.length == n,
    {
        let start = self.cursor;
        self.cursor = self.cursor + n;
        PortRange { start, length: n }
    }
}

/// Cap a drawn port count to what an allocator can still hand out, so
/// that a large draw from an unbounded distribution degrades to the
/// remaining space instead of failing.
pub fn clamp_draw(n: u64, remaining: u16) -> (d: u16)
    ensures
        d == if n < remaining {
            n as u16
        } else {
            remaining
        },
{
    if n < remaining as u64 {
        n as u16
    } else {
        remaining
    }
}

/// The total of a sequence of non-negative draws is non-negative.
pub proof fn lemma_total_nonneg(draws: Seq<int>)
    requires
        forall|k: int| 0 <= k < draws.len() ==> #[trigger] draws[k] >= 0,
    ensures
        draws_total(draws) >= 0,
    decreases draws.len(),
{
    if draws.len() > 0 {
        lemma_total_nonneg(draws.drop_last());
    }
}

/// Taking one more draw adds exactly that draw to the total.
pub proof fn lemma_total_take_succ(draws: Seq<int>, i: int)
    requires
        0 <= i < draws.len(),
    ensures
        draws_total(draws.take(i + 1)) == draws_total(draws.take(i)) + draws[i],
{
    assert(draws.take(i + 1).drop_last() =~= draws.take(i));
    assert(draws.take(i + 1).last() == draws[i]);
}

/// For any sequence of draws `n_1, n_2, ...` the allocator hands out the
/// slices `[base, base + n_1)`, `[base + n_1, base + n_1 + n_2)`, ...:
/// each slice begins exactly where the previous one ends (contiguous), so
/// the slices are pairwise disjoint and their starts are monotone.
pub proof fn lemma_slices_partition(draws: Seq<int>, base: int, i: int, j: int)
    requires
        forall|k: int| 0 <= k < draws.len() ==> #[trigger] draws[k] >= 0,
        0 <= i < j <= draws.len(),
    ensures
        slice_start(base, draws, i + 1) == slice_start(base, draws, i) + draws[i],
        slice_start(base, draws, i) + draws[i] <= slice_start(base, draws, j),
    decreases j - i,
{
    lemma_total_take_succ(draws, i);
    if i + 1 < j {
        lemma_slices_partition(draws, base, i + 1, j);
        assert(draws[i + 1] >= 0);
    }
}

/// Allocating a zero-sized slice any number of times leaves the cursor
/// where it was: a sequence of all-zero draws moves no slice start.
pub proof fn lemma_zero_draws_keep_cursor(draws: Seq<int>, base: int, i: int)
    requires
        forall|k: int| 0 <= k < draws.len() ==> #[trigger] draws[k] == 0,
        0 <= i <= draws.len(),
    ensures
        slice_start(base, draws, i) == base,
    decreases i,
{
    if i > 0 {
        lemma_total_take_succ(draws, i - 1);
        lemma_zero_draws_keep_cursor(draws, base, i - 1);
    }
}

} // verus!
