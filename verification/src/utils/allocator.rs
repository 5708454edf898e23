//! Counters of the memory that a tracking allocator hands out and takes back.
//!
//! A counter holds exactly the sum of what was recorded since the last
//! reset. A size that a counter has no room for is not recorded: it is left
//! out by the precondition, and `can_record_alloc` and `can_record_dealloc`
//! tell beforehand.
use vstd::prelude::*;

verus! {

/// The bytes allocated and the bytes deallocated since the last reset.
#[derive(Debug, Copy, Clone, PartialEq, Eq)]
pub struct AllocCounters {
    /// Bytes allocated.
    pub alloc: usize,
    /// Bytes deallocated.
    pub dealloc: usize,
}

/// A reading of the counters.
#[derive(Debug, Copy, Clone, PartialEq, Eq)]
pub struct Stats {
    /// Bytes allocated.
    pub alloc: usize,
    /// Bytes deallocated.
    pub dealloc: usize,
    /// Bytes allocated and not deallocated.
    pub diff: isize,
}

/// The sum of a sequence of sizes.
pub open spec fn sum_of(sizes: Seq<usize>) -> nat
    decreases sizes.len(),
{
    if sizes.len() == 0 {
        0
    } else {
        sum_of(sizes.drop_last()) + sizes.last() as nat
    }
}

/// The number in the range of `isize` that differs from `alloc - dealloc` by
/// a multiple of the range of `usize`: the difference itself wherever it is
/// in that range.
pub open spec fn signed_difference(alloc: usize, dealloc: usize) -> int {
    let difference = alloc - dealloc;
    if difference > isize::MAX {
        difference - (usize::MAX + 1)
    } else if difference < isize::MIN {
        difference + (usize::MAX + 1)
    } else {
        difference
    }
}

impl Default for AllocCounters {
    fn default() -> (r: Self)
        ensures
            r == AllocCounters::zero(),
    {
        AllocCounters { alloc: 0, dealloc: 0 }
    }
}

impl AllocCounters {
    /// The counters after a reset.
    pub open spec fn zero() -> Self {
        AllocCounters { alloc: 0, dealloc: 0 }
    }

    /// Whether the counter of allocations has room for `size` more bytes.
    pub open spec fn alloc_fits(self, size: usize) -> bool {
        self.alloc + size <= usize::MAX
    }

    /// Whether the counter of deallocations has room for `size` more bytes.
    pub open spec fn dealloc_fits(self, size: usize) -> bool {
        self.dealloc + size <= usize::MAX
    }

    /// The counters after an allocation of `size` bytes.
    pub open spec fn allocated(self, size: usize) -> Self {
        AllocCounters { alloc: (self.alloc + size) as usize, ..self }
    }

    /// The counters after a deallocation of `size` bytes.
    pub open spec fn deallocated(self, size: usize) -> Self {
        AllocCounters { dealloc: (self.dealloc + size) as usize, ..self }
    }

    /// The counters after a sequence of allocations, first to last.
    pub open spec fn allocated_all(self, sizes: Seq<usize>) -> Self
        decreases sizes.len(),
    {
        if sizes.len() == 0 {
            self
        } else {
            self.allocated_all(sizes.drop_last()).allocated(sizes.last())
        }
    }

    /// The counters after a sequence of deallocations, first to last.
    pub open spec fn deallocated_all(self, sizes: Seq<usize>) -> Self
        decreases sizes.len(),
    {
        if sizes.len() == 0 {
            self
        } else {
            self.deallocated_all(sizes.drop_last()).deallocated(sizes.last())
        }
    }

    /// What a reading of the counters shows.
    pub open spec fn reading(self) -> Stats {
        Stats {
            alloc: self.alloc,
            dealloc: self.dealloc,
            diff: signed_difference(self.alloc, self.dealloc) as isize,
        }
    }
}

/// Sets both counters to zero.
pub fn reset(counters: &mut AllocCounters)
    ensures
        *final(counters) == AllocCounters::zero(),
{
    counters.alloc = 0;
    counters.dealloc = 0;
}

/// Decides whether `record_alloc` can count `size` more bytes.
pub fn can_record_alloc(counters: &AllocCounters, size: usize) -> (r: bool)
    ensures
        r == counters.alloc_fits(size),
{
    counters.alloc <= usize::MAX - size
}

/// Decides whether `record_dealloc` can count `size` more bytes.
pub fn can_record_dealloc(counters: &AllocCounters, size: usize) -> (r: bool)
    ensures
        r == counters.dealloc_fits(size),
{
    counters.dealloc <= usize::MAX - size
}

/// Counts an allocation of `size` bytes.
pub fn record_alloc(counters: &mut AllocCounters, size: usize)
    requires
        old(counters).alloc_fits(size),
    ensures
        *final(counters) == old(counters).allocated(size),
        final(counters).alloc == old(counters).alloc + size,
{
    counters.alloc = counters.alloc + size;
}

/// Counts a deallocation of `size` bytes.
pub fn record_dealloc(counters: &mut AllocCounters, size: usize)
    requires
        old(counters).dealloc_fits(size),
    ensures
        *final(counters) == old(counters).deallocated(size),
        final(counters).dealloc == old(counters).dealloc + size,
{
    counters.dealloc = counters.dealloc + size;
}

/// Reads the counters: what was allocated, what was deallocated, and the
/// difference of the two as a signed number.
pub fn stats(counters: &AllocCounters) -> (r: Stats)
    ensures
        r == counters.reading(),
        isize::MIN <= counters.alloc - counters.dealloc <= isize::MAX ==> r.diff == counters.alloc
            - counters.dealloc,
{
    let alloc: usize = counters.alloc;
    let dealloc: usize = counters.dealloc;
    let diff: isize = if alloc >= dealloc {
        let difference: usize = alloc - dealloc;
        if difference <= isize::MAX as usize {
            difference as isize
        } else {
            let excess: usize = usize::MAX - difference;
            -1 - (excess as isize)
        }
    } else {
        let difference: usize = dealloc - alloc;
        if difference <= isize::MAX as usize {
            -(difference as isize)
        } else if difference - 1 == isize::MAX as usize {
            isize::MIN
        } else {
            let excess: usize = usize::MAX - difference;
            (excess as isize) + 1
        }
    };
    Stats { alloc, dealloc, diff }
}

/// After any sequence of allocations that the counter has room for, the
/// counter of allocations holds exactly the sum of what it held and the
/// sizes, and every single allocation of the sequence had room; the other
/// counter is untouched.
pub proof fn lemma_alloc_counts_exact_sum(counters: AllocCounters, sizes: Seq<usize>)
    requires
        counters.alloc + sum_of(sizes) <= usize::MAX,
    ensures
        counters.allocated_all(sizes).alloc == counters.alloc + sum_of(sizes),
        counters.allocated_all(sizes).dealloc == counters.dealloc,
        sizes.len() > 0 ==> counters.allocated_all(sizes.drop_last()).alloc_fits(sizes.last()),
    decreases sizes.len(),
{
    if sizes.len() > 0 {
        lemma_alloc_counts_exact_sum(counters, sizes.drop_last());
    }
}

/// After any sequence of deallocations that the counter has room for, the
/// counter of deallocations holds exactly the sum of what it held and the
/// sizes, and every single deallocation of the sequence had room; the other
/// counter is untouched.
pub proof fn lemma_dealloc_counts_exact_sum(counters: AllocCounters, sizes: Seq<usize>)
    requires
        counters.dealloc + sum_of(sizes) <= usize::MAX,
    ensures
        counters.deallocated_all(sizes).dealloc == counters.dealloc + sum_of(sizes),
        counters.deallocated_all(sizes).alloc == counters.alloc,
        sizes.len() > 0 ==> counters.deallocated_all(sizes.drop_last()).dealloc_fits(
            sizes.last(),
        ),
    decreases sizes.len(),
{
    if sizes.len() > 0 {
        lemma_dealloc_counts_exact_sum(counters, sizes.drop_last());
    }
}

/// Between two resets the counters hold the exact sums of what was recorded,
/// the difference is that of the sums, and after a reset with nothing
/// recorded a reading shows zero everywhere.
pub proof fn lemma_read_after_reset(allocs: Seq<usize>, deallocs: Seq<usize>)
    requires
        sum_of(allocs) <= isize::MAX,
        sum_of(deallocs) <= isize::MAX,
    ensures
        ({
            let counted = AllocCounters::zero().allocated_all(allocs).deallocated_all(deallocs);
            &&& counted.reading().alloc == sum_of(allocs)
            &&& counted.reading().dealloc == sum_of(deallocs)
            &&& counted.reading().diff == sum_of(allocs) - sum_of(deallocs)
        }),
        AllocCounters::zero().reading() == (Stats { alloc: 0, dealloc: 0, diff: 0 }),
{
    let allocated = AllocCounters::zero().allocated_all(allocs);
    lemma_alloc_counts_exact_sum(AllocCounters::zero(), allocs);
    lemma_dealloc_counts_exact_sum(allocated, deallocs);
}

} // verus!
