//! The numbers of the report of the cache: per function and in total, the
//! hits, the misses and what the misses cost.
use crate::utils::metrics::distribution::{lemma_total_prefix, total};
use crate::utils::metrics::types::{AccessStats, CacheDbRecord, CacheDbRecordView, FUNCTION_SLOTS};
use vstd::prelude::*;

verus! {

/// Number of rows of the report: one per slot of the functions, the last of
/// which takes the totals.
pub const CACHE_STATS_LEN: usize = 5;

/// Parts in a million.
pub const PER_MILLION: u64 = 1_000_000;

/// One row of the report of the cache.
#[derive(Debug, Copy, Clone, PartialEq, Eq)]
pub struct CacheStat {
    /// Accesses that hit.
    pub hits: u64,
    /// Accesses that missed.
    pub misses: u64,
    /// Cycles that the misses cost.
    pub penalty: u64,
}

impl Default for CacheStat {
    fn default() -> (r: Self)
        ensures
            r == (CacheStat { hits: 0, misses: 0, penalty: 0 }),
    {
        CacheStat { hits: 0, misses: 0, penalty: 0 }
    }
}

impl CacheStat {
    /// The number of accesses: hits and misses together.
    pub open spec fn accesses(self) -> nat {
        (self.hits + self.misses) as nat
    }

    /// The share of the accesses that missed, in parts per million and
    /// rounded down; there is none where nothing was accessed.
    pub open spec fn spec_miss_ratio(self) -> Option<nat> {
        if self.accesses() == 0 {
            None
        } else {
            Some((self.misses as nat * PER_MILLION as nat / self.accesses()) as nat)
        }
    }

    /// The cycles that a miss cost on average, rounded down; there is none
    /// where nothing missed.
    pub open spec fn spec_avg_penalty(self) -> Option<nat> {
        if self.misses == 0 {
            None
        } else {
            Some((self.penalty as nat / self.misses as nat) as nat)
        }
    }

    /// The share of the accesses that missed, in parts per million and
    /// rounded down; `None` where nothing was accessed.
    pub fn miss_ratio(&self) -> (ratio: Option<u64>)
        ensures
            ratio is None <==> self.spec_miss_ratio() is None,
            ratio matches Some(r) ==> self.spec_miss_ratio() == Some(r as nat) && r <= PER_MILLION,
    {
        let accesses: u128 = self.hits as u128 + self.misses as u128;
        if accesses == 0 {
            None
        } else {
            let scaled: u128 = (self.misses as u128) * (PER_MILLION as u128);
            let ratio: u128 = scaled / accesses;
            assert(ratio <= PER_MILLION) by (nonlinear_arith)
                requires
                    ratio == scaled / accesses,
                    scaled == self.misses * PER_MILLION,
                    accesses >= self.misses,
                    accesses > 0,
            ;
            Some(ratio as u64)
        }
    }

    /// The cycles that a miss cost on average, rounded down; `None` where
    /// nothing missed.
    pub fn avg_penalty(&self) -> (average: Option<u64>)
        ensures
            average is None <==> self.spec_avg_penalty() is None,
            average matches Some(a) ==> self.spec_avg_penalty() == Some(a as nat),
    {
        if self.misses == 0 {
            None
        } else {
            Some(self.penalty / self.misses)
        }
    }
}

/// The report of the cache.
#[derive(Debug, Copy, Clone, PartialEq, Eq)]
pub struct CacheStats {
    /// One row per function, at the function's slot, and the totals in the
    /// last row.
    pub functions: [CacheStat; CACHE_STATS_LEN],
}

impl Default for CacheStats {
    fn default() -> (r: Self)
        ensures
            forall|i: int|
                0 <= i < CACHE_STATS_LEN ==> r.functions[i] == (CacheStat {
                    hits: 0,
                    misses: 0,
                    penalty: 0,
                }),
    {
        CacheStats { functions: [CacheStat { hits: 0, misses: 0, penalty: 0 };CACHE_STATS_LEN] }
    }
}

/// Decides whether the sum of all the slots of `stats` fits in a `u64`.
pub fn can_sum_slots(stats: &AccessStats) -> (r: bool)
    ensures
        r == (total(stats@) <= u64::MAX),
{
    let mut sum: u128 = 0;
    let mut index: usize = 0;
    while index < FUNCTION_SLOTS
        invariant
            index <= FUNCTION_SLOTS,
            stats@.len() == FUNCTION_SLOTS,
            sum == total(stats@.take(index as int)),
            sum <= index * u64::MAX,
        decreases FUNCTION_SLOTS - index,
    {
        proof {
            lemma_total_prefix(stats@, index as int);
        }
        sum = sum + stats.function[index] as u128;
        index = index + 1;
    }
    assert(stats@.take(FUNCTION_SLOTS as int) =~= stats@);
    sum <= u64::MAX as u128
}

/// The sum of all the slots of `stats`.
pub fn sum_slots(stats: &AccessStats) -> (sum: u64)
    requires
        total(stats@) <= u64::MAX,
    ensures
        sum == total(stats@),
{
    let mut sum: u64 = 0;
    let mut index: usize = 0;
    while index < FUNCTION_SLOTS
        invariant
            index <= FUNCTION_SLOTS,
            stats@.len() == FUNCTION_SLOTS,
            sum == total(stats@.take(index as int)),
            total(stats@) <= u64::MAX,
        decreases FUNCTION_SLOTS - index,
    {
        proof {
            lemma_total_prefix(stats@, index as int);
            lemma_total_prefix(stats@, index as int + 1);
        }
        sum = sum + stats.function[index];
        index = index + 1;
    }
    assert(stats@.take(FUNCTION_SLOTS as int) =~= stats@);
    sum
}

impl CacheStats {
    /// Whether this is the report of `record`: each function's row holds its
    /// hits, its misses and the cycles that its misses cost, and the last row
    /// holds the sums over all slots.
    pub open spec fn reports(self, record: CacheDbRecordView) -> bool {
        &&& forall|i: int|
            0 <= i < CACHE_STATS_LEN - 1 ==> self.functions[i] == (CacheStat {
                hits: record.hits[i] as u64,
                misses: record.misses[i] as u64,
                penalty: record.penalty.time[i] as u64,
            })
        &&& self.functions[CACHE_STATS_LEN - 1] == (CacheStat {
            hits: total(record.hits) as u64,
            misses: total(record.misses) as u64,
            penalty: total(record.penalty.time) as u64,
        })
    }

    /// Whether the totals of `record` fit in a `u64` each.
    pub open spec fn report_fits(record: CacheDbRecordView) -> bool {
        &&& total(record.hits) <= u64::MAX
        &&& total(record.misses) <= u64::MAX
        &&& total(record.penalty.time) <= u64::MAX
    }

    /// Decides `report_fits`.
    pub fn can_report(record: &CacheDbRecord) -> (r: bool)
        ensures
            r == Self::report_fits(record@),
    {
        can_sum_slots(&record.hit_stats()) && can_sum_slots(&record.miss_stats())
            && can_sum_slots(&record.penalty_stats().time)
    }

    /// The report of `record`: for each function its hits, its misses and the
    /// cycles that its misses cost; in the last row the sums over all slots.
    pub fn from_record(record: &CacheDbRecord) -> (stats: CacheStats)
        requires
            Self::report_fits(record@),
        ensures
            stats.reports(record@),
    {
        let hit_stats = record.hit_stats();
        let miss_stats = record.miss_stats();
        let penalty_stats = record.penalty_stats();
        let mut stats = CacheStats::default();

        let mut index: usize = 0;
        while index < CACHE_STATS_LEN - 1
            invariant
                index <= CACHE_STATS_LEN - 1,
                hit_stats@ == record@.hits,
                miss_stats@ == record@.misses,
                penalty_stats@ == record@.penalty,
                forall|i: int|
                    0 <= i < index ==> stats.functions[i] == (CacheStat {
                        hits: record@.hits[i] as u64,
                        misses: record@.misses[i] as u64,
                        penalty: record@.penalty.time[i] as u64,
                    }),
            decreases CACHE_STATS_LEN - 1 - index,
        {
            assert(hit_stats@[index as int] == hit_stats.function[index as int]);
            assert(miss_stats@[index as int] == miss_stats.function[index as int]);
            assert(penalty_stats@.time[index as int] == penalty_stats.time.function[index as int]);
            stats.functions[index] = CacheStat {
                hits: hit_stats.function[index],
                misses: miss_stats.function[index],
                penalty: penalty_stats.time.function[index],
            };
            index = index + 1;
        }
        stats.functions[CACHE_STATS_LEN - 1] = CacheStat {
            hits: sum_slots(&hit_stats),
            misses: sum_slots(&miss_stats),
            penalty: sum_slots(&penalty_stats.time),
        };
        stats
    }
}

} // verus!
