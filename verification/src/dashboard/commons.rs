//! The rows of the report of a time distribution.
use crate::utils::metrics::distribution::{
    lemma_total_prefix, total, TimeDistributionStats, MAX_ARRAY_SIZE, FINE_STEP_IN_NS, COARSE_STEP_IN_NS,
};
use vstd::prelude::*;

verus! {

/// One row of the report of a time distribution.
#[derive(Debug, Clone, Copy, PartialEq, Eq)]
pub struct DistributionRow {
    /// The upper end of the bucket, in nanoseconds.
    pub time_in_ns: u64,
    /// The number of samples in the bucket.
    pub count: u64,
}

/// The first coarse bucket that lies beyond the fine window of a
/// distribution with `span_in_ns` fine buckets.
pub open spec fn first_coarse_row(span_in_ns: nat) -> nat {
    span_in_ns * FINE_STEP_IN_NS as nat / COARSE_STEP_IN_NS as nat
}

/// The number of rows of the report: one per fine bucket in use, and one per
/// coarse bucket in use beyond the fine window.
pub open spec fn row_count(span_in_us: nat, span_in_ns: nat) -> nat {
    if first_coarse_row(span_in_ns) <= span_in_us {
        (span_in_ns + span_in_us - first_coarse_row(span_in_ns)) as nat
    } else {
        span_in_ns
    }
}

/// The row at position `i` of the report of `stats`: the fine buckets come
/// first, then the coarse buckets beyond the fine window.
pub open spec fn row_at(stats: TimeDistributionStats, i: int) -> DistributionRow {
    if i < stats.span_in_ns {
        DistributionRow {
            time_in_ns: ((i + 1) * FINE_STEP_IN_NS) as u64,
            count: stats.ns_percentile[i],
        }
    } else {
        let bucket = i - stats.span_in_ns + first_coarse_row(stats.span_in_ns as nat);
        DistributionRow {
            time_in_ns: ((bucket + 1) * COARSE_STEP_IN_NS) as u64,
            count: stats.us_percentile[bucket],
        }
    }
}

/// Decides whether the number of samples in a distribution fits in a `u64`.
pub fn can_total_count(stats: &TimeDistributionStats) -> (r: bool)
    ensures
        r == (stats@.coarse_total() <= u64::MAX),
{
    let mut count: u128 = 0;
    let mut index: usize = 0;
    while index < MAX_ARRAY_SIZE
        invariant
            index <= MAX_ARRAY_SIZE,
            stats@.us.len() == MAX_ARRAY_SIZE,
            count == total(stats@.us.take(index as int)),
            count <= index * u64::MAX,
        decreases MAX_ARRAY_SIZE - index,
    {
        proof {
            lemma_total_prefix(stats@.us, index as int);
        }
        count = count + stats.us_percentile[index] as u128;
        index = index + 1;
    }
    assert(stats@.us.take(MAX_ARRAY_SIZE as int) =~= stats@.us);
    count <= u64::MAX as u128
}

/// The number of samples in a distribution: the sum of its coarse buckets.
pub fn total_count(stats: &TimeDistributionStats) -> (count: u64)
    requires
        stats@.coarse_total() <= u64::MAX,
    ensures
        count == stats@.coarse_total(),
{
    let mut count: u64 = 0;
    let mut index: usize = 0;
    while index < MAX_ARRAY_SIZE
        invariant
            index <= MAX_ARRAY_SIZE,
            stats@.us.len() == MAX_ARRAY_SIZE,
            count == total(stats@.us.take(index as int)),
            total(stats@.us) <= u64::MAX,
        decreases MAX_ARRAY_SIZE - index,
    {
        proof {
            lemma_total_prefix(stats@.us, index as int);
            lemma_total_prefix(stats@.us, index as int + 1);
        }
        count = count + stats.us_percentile[index];
        index = index + 1;
    }
    assert(stats@.us.take(MAX_ARRAY_SIZE as int) =~= stats@.us);
    count
}

/// The rows of the report of a distribution, in the order in which they are
/// shown: for each fine bucket in use its upper end and its count, then the
/// same for each coarse bucket in use beyond the fine window.
pub fn distribution_rows(stats: &TimeDistributionStats) -> (rows: Vec<DistributionRow>)
    requires
        stats.span_in_us <= MAX_ARRAY_SIZE,
        stats.span_in_ns <= MAX_ARRAY_SIZE,
    ensures
        rows@.len() == row_count(stats.span_in_us as nat, stats.span_in_ns as nat),
        forall|i: int| 0 <= i < rows@.len() ==> rows@[i] == row_at(*stats, i),
{
    let mut rows: Vec<DistributionRow> = Vec::new();
    let mut index: usize = 0;
    while index < stats.span_in_ns
        invariant
            index <= stats.span_in_ns <= MAX_ARRAY_SIZE,
            rows@.len() == index,
            forall|i: int| 0 <= i < rows@.len() ==> rows@[i] == row_at(*stats, i),
        decreases stats.span_in_ns - index,
    {
        let time_in_ns: u64 = ((index + 1) * FINE_STEP_IN_NS) as u64;
        rows.push(DistributionRow { time_in_ns, count: stats.ns_percentile[index] });
        index = index + 1;
    }
    let first: usize = stats.span_in_ns * FINE_STEP_IN_NS / (COARSE_STEP_IN_NS as usize);
    let mut bucket: usize = first;
    while bucket < stats.span_in_us
        invariant
            first == first_coarse_row(stats.span_in_ns as nat),
            stats.span_in_us <= MAX_ARRAY_SIZE,
            stats.span_in_ns <= MAX_ARRAY_SIZE,
            first <= bucket,
            bucket == first || bucket <= stats.span_in_us,
            rows@.len() == stats.span_in_ns + bucket - first,
            forall|i: int| 0 <= i < rows@.len() ==> rows@[i] == row_at(*stats, i),
        decreases stats.span_in_us - bucket,
    {
        let time_in_ns: u64 = (bucket as u64 + 1) * COARSE_STEP_IN_NS;
        rows.push(DistributionRow { time_in_ns, count: stats.us_percentile[bucket] });
        bucket = bucket + 1;
    }
    rows
}

} // verus!
