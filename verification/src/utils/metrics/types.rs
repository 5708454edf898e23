//! The records that the recorders fill: cache access statistics, the time
//! breakdown of a transaction, and per-opcode statistics.
//!
//! Each record has a view in unbounded numbers, and merging is stated on the
//! views; the executable merge requires that every sum fits its counter.
use super::distribution::{
    lemma_record_counts_once, lemma_total_update, lemma_total_zero, total, DistributionView,
    MAX_ARRAY_SIZE,
};
use crate::utils::time_utils::cycles::{convert_cycles_to_ns, saturate_u64, CycleClock};
use vstd::prelude::*;

pub use super::distribution::TimeDistributionStats;

verus! {

/// Number of functions through which the cache is accessed, plus a spare slot.
pub const FUNCTION_SLOTS: usize = 5;

/// Number of slots of the per-opcode table: one for every value of a byte.
pub const OPCODE_SLOTS: usize = 256;

/// Number of call-like opcodes.
pub const CALL_OPCODE_LEN: usize = 4;

/// The opcode whose time distribution is kept.
pub const SLOAD: u8 = 0x54;

/// The sequence of the sums of the elements of two sequences of the same length.
pub open spec fn pointwise_sum(a: Seq<nat>, b: Seq<nat>) -> Seq<nat> {
    Seq::new(a.len(), |i: int| a[i] + b[i])
}

/// Whether every sum of `pointwise_sum` fits in a `u64`.
pub open spec fn pointwise_fits(a: Seq<nat>, b: Seq<nat>) -> bool {
    forall|i: int| 0 <= i < a.len() ==> a[i] + b[i] <= u64::MAX
}

/// The function in which the cache is accessed.
#[derive(Debug, Copy, Clone, PartialEq, Eq)]
pub enum Function {
    CodeByHash,
    Storage,
    BlockHash,
    LoadCacheAccount,
}

impl Function {
    /// The slot of the function in an `AccessStats`.
    pub open spec fn slot(self) -> int {
        match self {
            Function::CodeByHash => 0,
            Function::Storage => 1,
            Function::BlockHash => 2,
            Function::LoadCacheAccount => 3,
        }
    }

    /// The slot of the function in an `AccessStats`.
    pub fn index(self) -> (r: usize)
        ensures
            r == self.slot(),
            r < FUNCTION_SLOTS - 1,
    {
        match self {
            Function::CodeByHash => 0,
            Function::Storage => 1,
            Function::BlockHash => 2,
            Function::LoadCacheAccount => 3,
        }
    }
}

/// A count or a sum of cycles for each function that accesses the cache.
#[derive(Debug, Clone, Copy, PartialEq, Eq)]
pub struct AccessStats {
    /// One counter per function, at the function's slot.
    pub function: [u64; FUNCTION_SLOTS],
}

impl View for AccessStats {
    type V = Seq<nat>;

    open spec fn view(&self) -> Seq<nat> {
        Seq::new(FUNCTION_SLOTS as nat, |i: int| self.function[i] as nat)
    }
}

impl Default for AccessStats {
    fn default() -> (r: Self)
        ensures
            r@ == Seq::new(FUNCTION_SLOTS as nat, |i: int| 0nat),
    {
        let r = AccessStats { function: [0;FUNCTION_SLOTS] };
        assert(r@ =~= Seq::new(FUNCTION_SLOTS as nat, |i: int| 0nat));
        r
    }
}

impl AccessStats {
    /// Decides whether `update` can take `other`: every sum fits its counter.
    pub fn can_update(&self, other: &Self) -> (r: bool)
        ensures
            r == pointwise_fits(self@, other@),
    {
        let mut i: usize = 0;
        while i < FUNCTION_SLOTS
            invariant
                i <= FUNCTION_SLOTS,
                forall|j: int| 0 <= j < i ==> self@[j] + other@[j] <= u64::MAX,
            decreases FUNCTION_SLOTS - i,
        {
            if self.function[i] > u64::MAX - other.function[i] {
                assert(self@[i as int] + other@[i as int] > u64::MAX);
                return false;
            }
            assert(self@[i as int] + other@[i as int] <= u64::MAX);
            i = i + 1;
        }
        true
    }

    /// Decides whether `add` can add `value` to the counter of `function`.
    pub fn can_add(&self, function: Function, value: u64) -> (r: bool)
        ensures
            r == (self@[function.slot()] + value <= u64::MAX),
    {
        let index: usize = function.index();
        assert(self@[index as int] == self.function[index as int]);
        self.function[index] <= u64::MAX - value
    }

    /// Adds the counters of `other`, slot by slot.
    pub fn update(&mut self, other: &Self)
        requires
            pointwise_fits(old(self)@, other@),
        ensures
            final(self)@ == pointwise_sum(old(self)@, other@),
    {
        let mut i: usize = 0;
        while i < FUNCTION_SLOTS
            invariant
                i <= FUNCTION_SLOTS,
                pointwise_fits(old(self)@, other@),
                forall|j: int|
                    0 <= j < i ==> self.function[j] == old(self).function[j] + other.function[j],
                forall|j: int| i <= j < FUNCTION_SLOTS ==> self.function[j] == old(self).function[j],
            decreases FUNCTION_SLOTS - i,
        {
            assert(old(self)@[i as int] + other@[i as int] <= u64::MAX);
            self.function[i] = self.function[i] + other.function[i];
            i = i + 1;
        }
        assert(self@ =~= pointwise_sum(old(self)@, other@));
    }

    /// Adds one to the counter of `function`.
    pub fn increment(&mut self, function: Function)
        requires
            old(self)@[function.slot()] < u64::MAX,
        ensures
            final(self)@ == old(self)@.update(function.slot(), old(self)@[function.slot()] + 1),
    {
        self.add(function, 1);
    }

    /// Adds `value` to the counter of `function`.
    pub fn add(&mut self, function: Function, value: u64)
        requires
            old(self)@[function.slot()] + value <= u64::MAX,
        ensures
            final(self)@ == old(self)@.update(
                function.slot(),
                old(self)@[function.slot()] + value as nat,
            ),
    {
        let index: usize = function.index();
        assert(old(self)@[index as int] == self.function[index as int]);
        self.function[index] = self.function[index] + value;
        assert(self@ =~= old(self)@.update(
            function.slot(),
            old(self)@[function.slot()] + value as nat,
        ));
    }
}

/// The view of a `MissesPenalty`.
pub struct MissesPenaltyView {
    /// Cycles spent on misses, per function.
    pub time: Seq<nat>,
    /// Distribution of the time of single misses.
    pub percentile: DistributionView,
}

/// The additional cost, in cycles, of the accesses that missed the cache.
#[derive(Debug, Clone, Copy, PartialEq, Eq)]
pub struct MissesPenalty {
    /// The penalty of the misses of each function.
    pub time: AccessStats,
    /// The time distribution of single penalties.
    pub percentile: TimeDistributionStats,
}

impl View for MissesPenalty {
    type V = MissesPenaltyView;

    open spec fn view(&self) -> MissesPenaltyView {
        MissesPenaltyView { time: self.time@, percentile: self.percentile@ }
    }
}

impl MissesPenaltyView {
    /// The penalty that holds nothing.
    pub open spec fn empty() -> MissesPenaltyView {
        MissesPenaltyView {
            time: AccessStats::default_view(),
            percentile: DistributionView::empty(
                super::distribution::US_SPAN_SIZE as nat,
                super::distribution::NS_SPAN_SIZE as nat,
            ),
        }
    }

    /// The penalty after that of `other` has been added.
    pub open spec fn merge(self, other: MissesPenaltyView) -> MissesPenaltyView {
        MissesPenaltyView {
            time: pointwise_sum(self.time, other.time),
            percentile: self.percentile.merge(other.percentile),
        }
    }

    /// Whether every sum that `merge` forms fits in a `u64`.
    pub open spec fn merge_fits(self, other: MissesPenaltyView) -> bool {
        &&& pointwise_fits(self.time, other.time)
        &&& self.percentile.merge_fits(other.percentile)
    }
}

impl AccessStats {
    /// The view of the statistics that `default` makes: a zero in every slot.
    pub open spec fn default_view() -> Seq<nat> {
        Seq::new(FUNCTION_SLOTS as nat, |i: int| 0nat)
    }
}

impl Default for MissesPenalty {
    fn default() -> (r: Self)
        ensures
            r@ == MissesPenaltyView::empty(),
    {
        MissesPenalty { time: AccessStats::default(), percentile: TimeDistributionStats::default() }
    }
}

impl MissesPenalty {
    /// Whether `update` can take `other`: the spans of the distribution lie
    /// within its arrays and every sum fits its counter.
    pub open spec fn update_fits(self, other: MissesPenalty) -> bool {
        &&& self.percentile.span_in_us <= MAX_ARRAY_SIZE
        &&& self.percentile.span_in_ns <= MAX_ARRAY_SIZE
        &&& self@.merge_fits(other@)
    }

    /// Decides `update_fits`.
    pub fn can_update(&self, other: &Self) -> (r: bool)
        ensures
            r == self.update_fits(*other),
    {
        self.time.can_update(&other.time) && self.percentile.can_update(&other.percentile)
    }

    /// Adds the penalties of `other`: the cycles slot by slot, the
    /// distribution bucket by bucket.
    pub fn update(&mut self, other: &Self)
        requires
            old(self).update_fits(*other),
        ensures
            final(self)@ == old(self)@.merge(other@),
    {
        self.time.update(&other.time);
        self.percentile.update(&other.percentile);
    }

    /// Counts one penalty of `time_in_ns` nanoseconds in the distribution.
    pub fn percentile(&mut self, time_in_ns: u64)
        requires
            old(self).percentile.record_fits(time_in_ns),
        ensures
            final(self)@ == (MissesPenaltyView {
                percentile: old(self)@.percentile.record(time_in_ns as nat),
                ..old(self)@
            }),
    {
        self.percentile.record(time_in_ns);
    }
}

/// The view of a `CacheDbRecord`.
pub struct CacheDbRecordView {
    /// Hits per function.
    pub hits: Seq<nat>,
    /// Misses per function.
    pub misses: Seq<nat>,
    /// What the misses cost.
    pub penalty: MissesPenaltyView,
}

impl CacheDbRecordView {
    /// The record that holds nothing.
    pub open spec fn empty() -> CacheDbRecordView {
        CacheDbRecordView {
            hits: AccessStats::default_view(),
            misses: AccessStats::default_view(),
            penalty: MissesPenaltyView::empty(),
        }
    }

    /// The record after one more hit in `function`.
    pub open spec fn hit(self, function: Function) -> CacheDbRecordView {
        CacheDbRecordView {
            hits: self.hits.update(function.slot(), self.hits[function.slot()] + 1),
            ..self
        }
    }

    /// The record after one more miss in `function`, which cost `penalty`
    /// cycles, that is `penalty_ns` nanoseconds.
    pub open spec fn miss(self, function: Function, penalty: nat, penalty_ns: nat)
        -> CacheDbRecordView {
        CacheDbRecordView {
            misses: self.misses.update(function.slot(), self.misses[function.slot()] + 1),
            penalty: MissesPenaltyView {
                time: self.penalty.time.update(
                    function.slot(),
                    self.penalty.time[function.slot()] + penalty,
                ),
                percentile: self.penalty.percentile.record(penalty_ns),
            },
            ..self
        }
    }

    /// Whether every counter that `miss` raises can take what it adds.
    pub open spec fn miss_fits(self, function: Function, penalty: nat, penalty_ns: nat) -> bool {
        &&& self.misses[function.slot()] < u64::MAX
        &&& self.penalty.time[function.slot()] + penalty <= u64::MAX
        &&& self.penalty.percentile.record_fits(penalty_ns)
    }

    /// The record after `other` has been added to it.
    pub open spec fn merge(self, other: CacheDbRecordView) -> CacheDbRecordView {
        CacheDbRecordView {
            hits: pointwise_sum(self.hits, other.hits),
            misses: pointwise_sum(self.misses, other.misses),
            penalty: self.penalty.merge(other.penalty),
        }
    }

    /// Whether every sum that `merge` forms fits in a `u64`.
    pub open spec fn merge_fits(self, other: CacheDbRecordView) -> bool {
        &&& pointwise_fits(self.hits, other.hits)
        &&& pointwise_fits(self.misses, other.misses)
        &&& self.penalty.merge_fits(other.penalty)
    }

    /// The number of accesses per function: hits and misses together.
    pub open spec fn access_count(self) -> Seq<nat> {
        pointwise_sum(self.hits, self.misses)
    }

    /// The slots are those of an `AccessStats` and the distribution is valid.
    pub open spec fn wf(self) -> bool {
        &&& self.hits.len() == FUNCTION_SLOTS
        &&& self.misses.len() == FUNCTION_SLOTS
        &&& self.penalty.time.len() == FUNCTION_SLOTS
        &&& self.penalty.percentile.wf()
    }
}

/// What happened at the cache during execution: hits, misses and the cost
/// of the misses.
#[derive(Debug, Clone, Copy, PartialEq, Eq)]
pub struct CacheDbRecord {
    /// The number of cache hits.
    hits: AccessStats,
    /// The number of cache misses.
    misses: AccessStats,
    /// The additional cost of the accesses that missed.
    penalty: MissesPenalty,
}

impl View for CacheDbRecord {
    type V = CacheDbRecordView;

    closed spec fn view(&self) -> CacheDbRecordView {
        CacheDbRecordView { hits: self.hits@, misses: self.misses@, penalty: self.penalty@ }
    }
}

impl Default for CacheDbRecord {
    fn default() -> (r: Self)
        ensures
            r@ == CacheDbRecordView::empty(),
    {
        proof {
            lemma_empty_cache_record_is_zero();
        }
        CacheDbRecord {
            hits: AccessStats::default(),
            misses: AccessStats::default(),
            penalty: MissesPenalty::default(),
        }
    }
}

impl CacheDbRecord {
    /// Every record is valid: its penalty distribution is.
    #[verifier::type_invariant]
    spec fn valid(self) -> bool {
        self@.wf()
    }

    /// The record of the given hits, misses and penalties; there is none
    /// where the distribution of the penalties is not valid.
    pub fn from_parts(hits: AccessStats, misses: AccessStats, penalty: MissesPenalty) -> (r: Option<
        CacheDbRecord,
    >)
        ensures
            r is Some <==> penalty@.percentile.wf(),
            r matches Some(record) ==> record@ == (CacheDbRecordView {
                hits: hits@,
                misses: misses@,
                penalty: penalty@,
            }),
    {
        if penalty.percentile.check_wf() {
            Some(CacheDbRecord { hits, misses, penalty })
        } else {
            None
        }
    }

    /// Decides whether `update` can take `other`: every sum fits its counter.
    pub fn can_update(&self, other: &Self) -> (r: bool)
        ensures
            r == self@.merge_fits(other@),
    {
        proof {
            use_type_invariant(self);
        }
        self.hits.can_update(&other.hits) && self.misses.can_update(&other.misses)
            && self.penalty.can_update(&other.penalty)
    }

    /// Decides whether `access_count` can add up the hits and the misses.
    pub fn can_access_count(&self) -> (r: bool)
        ensures
            r == pointwise_fits(self@.hits, self@.misses),
    {
        self.hits.can_update(&self.misses)
    }

    /// Decides whether `hit` can count a hit in `function`.
    pub fn can_hit(&self, function: Function) -> (r: bool)
        ensures
            r == (self@.hits[function.slot()] < u64::MAX),
    {
        self.hits.can_add(function, 1)
    }

    /// Decides whether `miss` can count a miss in `function` that cost
    /// `penalty` cycles.
    pub fn can_miss(&self, function: Function, penalty: u64, clock: &CycleClock) -> (r: bool)
        ensures
            r == self@.miss_fits(
                function,
                penalty as nat,
                saturate_u64(clock.nanos(penalty as nat)) as nat,
            ),
    {
        proof {
            use_type_invariant(self);
        }
        self.misses.can_add(function, 1) && self.penalty.time.can_add(function, penalty)
            && self.penalty.percentile.can_record(convert_cycles_to_ns(clock, penalty))
    }

    /// Adds what `other` holds to this record.
    pub fn update(&mut self, other: &Self)
        requires
            old(self)@.merge_fits(other@),
        ensures
            final(self)@ == old(self)@.merge(other@),
    {
        proof {
            use_type_invariant(&*self);
        }
        let mut hits = self.hits;
        let mut misses = self.misses;
        let mut penalty = self.penalty;
        hits.update(&other.hits);
        misses.update(&other.misses);
        penalty.update(&other.penalty);
        self.hits = hits;
        self.misses = misses;
        self.penalty = penalty;
    }

    /// The number of times the cache was accessed in each function.
    pub fn access_count(&self) -> (stats: AccessStats)
        requires
            pointwise_fits(self@.hits, self@.misses),
        ensures
            stats@ == self@.access_count(),
    {
        let mut stats = self.hits;
        stats.update(&self.misses);
        stats
    }

    /// The number of hits in each function.
    pub fn hit_stats(&self) -> (stats: AccessStats)
        ensures
            stats@ == self@.hits,
            self@.wf(),
    {
        proof {
            use_type_invariant(self);
        }
        self.hits
    }

    /// The number of misses in each function.
    pub fn miss_stats(&self) -> (stats: AccessStats)
        ensures
            stats@ == self@.misses,
            self@.wf(),
    {
        proof {
            use_type_invariant(self);
        }
        self.misses
    }

    /// The penalties of the misses in each function, and their distribution.
    pub fn penalty_stats(&self) -> (penalty: MissesPenalty)
        ensures
            penalty@ == self@.penalty,
            self@.wf(),
    {
        proof {
            use_type_invariant(self);
        }
        self.penalty
    }

    /// Counts a hit in `function`.
    pub fn hit(&mut self, function: Function)
        requires
            old(self)@.hits[function.slot()] < u64::MAX,
        ensures
            final(self)@ == old(self)@.hit(function),
    {
        proof {
            use_type_invariant(&*self);
        }
        let mut hits = self.hits;
        hits.increment(function);
        self.hits = hits;
    }

    /// Counts a miss in `function` that cost `penalty` cycles: one more miss,
    /// `penalty` more cycles of penalty, and one more sample of the
    /// nanoseconds that `penalty` cycles take on `clock`.
    pub fn miss(&mut self, function: Function, penalty: u64, clock: &CycleClock)
        requires
            old(self)@.miss_fits(
                function,
                penalty as nat,
                saturate_u64(clock.nanos(penalty as nat)) as nat,
            ),
        ensures
            final(self)@ == old(self)@.miss(
                function,
                penalty as nat,
                saturate_u64(clock.nanos(penalty as nat)) as nat,
            ),
    {
        proof {
            use_type_invariant(&*self);
        }
        let mut misses = self.misses;
        let mut cost = self.penalty;
        misses.increment(function);
        cost.time.add(function, penalty);
        let penalty_ns: u64 = convert_cycles_to_ns(clock, penalty);
        proof {
            lemma_record_counts_once(old(self)@.penalty.percentile, penalty_ns as nat);
        }
        cost.percentile(penalty_ns);
        self.misses = misses;
        self.penalty = cost;
    }
}

/// The time, in cycles, of each part of the inner transaction function.
#[derive(Debug, Clone, Copy, PartialEq, Eq)]
pub struct TransactPreverifiedInnerTime {
    /// Cycles before the opcodes are executed.
    pub before_execute: u64,
    /// Cycles of executing the opcodes.
    pub execute: u64,
    /// Cycles after the opcodes are executed.
    pub after_execute: u64,
}

impl Default for TransactPreverifiedInnerTime {
    fn default() -> (r: Self)
        ensures
            r == (TransactPreverifiedInnerTime { before_execute: 0, execute: 0, after_execute: 0 }),
    {
        TransactPreverifiedInnerTime { before_execute: 0, execute: 0, after_execute: 0 }
    }
}

impl TransactPreverifiedInnerTime {
    /// Whether each part of `self` can take up the same part of `other`.
    pub open spec fn update_fits(self, other: Self) -> bool {
        &&& self.before_execute + other.before_execute <= u64::MAX
        &&& self.execute + other.execute <= u64::MAX
        &&& self.after_execute + other.after_execute <= u64::MAX
    }

    /// The times after those of `other` have been added, part by part.
    pub open spec fn updated(self, other: Self) -> Self {
        TransactPreverifiedInnerTime {
            before_execute: (self.before_execute + other.before_execute) as u64,
            execute: (self.execute + other.execute) as u64,
            after_execute: (self.after_execute + other.after_execute) as u64,
        }
    }

    /// Decides `update_fits`.
    pub fn can_update(&self, other: &Self) -> (r: bool)
        ensures
            r == self.update_fits(*other),
    {
        self.before_execute <= u64::MAX - other.before_execute && self.execute <= u64::MAX
            - other.execute && self.after_execute <= u64::MAX - other.after_execute
    }

    /// Adds the times of `other`, part by part.
    pub fn update(&mut self, other: &Self)
        requires
            old(self).update_fits(*other),
        ensures
            *final(self) == old(self).updated(*other),
    {
        self.before_execute = self.before_execute + other.before_execute;
        self.execute = self.execute + other.execute;
        self.after_execute = self.after_execute + other.after_execute;
    }
}

/// The time, in cycles, of each part of the transaction function.
#[derive(Debug, Clone, Copy, PartialEq, Eq)]
pub struct TransactTime {
    /// Cycles of the whole function.
    pub total: u64,
    /// Cycles of verifying the transaction beforehand.
    pub preverify_transaction_inner: u64,
    /// Cycles of the inner transaction function, part by part.
    pub transact_preverified_inner: TransactPreverifiedInnerTime,
    /// Cycles of the end handler.
    pub handle_end: u64,
}

impl Default for TransactTime {
    fn default() -> (r: Self)
        ensures
            r == TransactTime::zero(),
    {
        TransactTime {
            total: 0,
            preverify_transaction_inner: 0,
            transact_preverified_inner: TransactPreverifiedInnerTime::default(),
            handle_end: 0,
        }
    }
}

impl TransactTime {
    /// The breakdown in which every time is zero.
    pub open spec fn zero() -> Self {
        TransactTime {
            total: 0,
            preverify_transaction_inner: 0,
            transact_preverified_inner: TransactPreverifiedInnerTime {
                before_execute: 0,
                execute: 0,
                after_execute: 0,
            },
            handle_end: 0,
        }
    }

    /// Whether each part of `self` can take up the same part of `other`.
    pub open spec fn update_fits(self, other: Self) -> bool {
        &&& self.total + other.total <= u64::MAX
        &&& self.preverify_transaction_inner + other.preverify_transaction_inner <= u64::MAX
        &&& self.transact_preverified_inner.update_fits(other.transact_preverified_inner)
        &&& self.handle_end + other.handle_end <= u64::MAX
    }

    /// The times after those of `other` have been added, part by part.
    pub open spec fn updated(self, other: Self) -> Self {
        TransactTime {
            total: (self.total + other.total) as u64,
            preverify_transaction_inner: (self.preverify_transaction_inner
                + other.preverify_transaction_inner) as u64,
            transact_preverified_inner: self.transact_preverified_inner.updated(
                other.transact_preverified_inner,
            ),
            handle_end: (self.handle_end + other.handle_end) as u64,
        }
    }

    /// The cycles of all parts but the total.
    pub open spec fn parts(self) -> int {
        self.preverify_transaction_inner + self.transact_preverified_inner.before_execute
            + self.transact_preverified_inner.execute
            + self.transact_preverified_inner.after_execute + self.handle_end
    }

    /// Decides `update_fits`.
    pub fn can_update(&self, other: &Self) -> (r: bool)
        ensures
            r == self.update_fits(*other),
    {
        self.total <= u64::MAX - other.total && self.preverify_transaction_inner <= u64::MAX
            - other.preverify_transaction_inner && self.transact_preverified_inner.can_update(
            &other.transact_preverified_inner,
        ) && self.handle_end <= u64::MAX - other.handle_end
    }

    /// Adds the times of `other`, part by part.
    pub fn update(&mut self, other: &Self)
        requires
            old(self).update_fits(*other),
        ensures
            *final(self) == old(self).updated(*other),
    {
        self.total = self.total + other.total;
        self.preverify_transaction_inner = self.preverify_transaction_inner
            + other.preverify_transaction_inner;
        self.transact_preverified_inner.update(&other.transact_preverified_inner);
        self.handle_end = self.handle_end + other.handle_end;
    }
}

/// The slot of a call-like opcode in the additional counts, `None` for any
/// other opcode: `CALL`, `CALLCODE`, `DELEGATECALL`, `STATICCALL` in this order.
pub open spec fn call_opcode_slot(opcode: u8) -> Option<int> {
    if opcode == 0xF1 {
        Some(0)
    } else if opcode == 0xF2 {
        Some(1)
    } else if opcode == 0xF4 {
        Some(2)
    } else if opcode == 0xFA {
        Some(3)
    } else {
        None
    }
}

/// The slot of a call-like opcode in the additional counts, `None` for any
/// other opcode.
pub fn call_opcode_index(opcode: u8) -> (r: Option<usize>)
    ensures
        r matches Some(index) ==> call_opcode_slot(opcode) == Some(index as int) && index
            < CALL_OPCODE_LEN,
        r is None ==> call_opcode_slot(opcode) is None,
{
    match opcode {
        0xF1 => Some(0),
        0xF2 => Some(1),
        0xF4 => Some(2),
        0xFA => Some(3),
        _ => None,
    }
}

/// The view of an `OpcodeRecord`.
pub struct OpcodeRecordView {
    /// For each opcode: how often it ran, the cycles it took, the gas it used.
    pub table: Seq<(nat, nat, int)>,
    /// The time distribution of `SLOAD`.
    pub sload: DistributionView,
    /// The cycles of all opcodes together.
    pub total_time: nat,
    /// Whether an opcode was recorded since the record was made.
    pub is_updated: bool,
    /// How often the interpreter was entered again by each call-like opcode.
    pub additional: Seq<nat>,
}

impl OpcodeRecordView {
    /// The record that holds nothing and was never updated.
    pub open spec fn empty() -> OpcodeRecordView {
        OpcodeRecordView {
            table: Seq::new(OPCODE_SLOTS as nat, |i: int| (0nat, 0nat, 0int)),
            sload: DistributionView::empty(
                super::distribution::US_SPAN_SIZE as nat,
                super::distribution::NS_SPAN_SIZE as nat,
            ),
            total_time: 0,
            is_updated: false,
            additional: Seq::new(CALL_OPCODE_LEN as nat, |i: int| 0nat),
        }
    }

    /// The table in which each slot holds the sums of that slot of two tables.
    pub open spec fn table_sum(a: Seq<(nat, nat, int)>, b: Seq<(nat, nat, int)>) -> Seq<
        (nat, nat, int),
    > {
        Seq::new(a.len(), |i: int| (a[i].0 + b[i].0, a[i].1 + b[i].1, a[i].2 + b[i].2))
    }

    /// Whether every sum of `table_sum` fits its counter.
    pub open spec fn table_fits(a: Seq<(nat, nat, int)>, b: Seq<(nat, nat, int)>) -> bool {
        forall|i: int|
            0 <= i < a.len() ==> {
                &&& a[i].0 + b[i].0 <= u64::MAX
                &&& a[i].1 + b[i].1 <= u64::MAX
                &&& i128::MIN <= #[trigger] a[i].2 + b[i].2 <= i128::MAX
            }
    }

    /// The record after `other` has been merged into it: everything that
    /// `other` holds is added, counter by counter and bucket by bucket,
    /// whatever this record held before and whether or not it was ever
    /// updated. The distribution is taken in whole: every bucket of it is
    /// added, in use or not, and a distribution that held nothing takes the
    /// spans of the incoming one. So a record that holds nothing becomes the
    /// record merged into it. A record that was never updated adds nothing.
    pub open spec fn merge_add(self, other: OpcodeRecordView) -> OpcodeRecordView {
        if !other.is_updated {
            self
        } else {
            OpcodeRecordView {
                table: Self::table_sum(self.table, other.table),
                sload: self.sload.absorb(other.sload),
                total_time: self.total_time + other.total_time,
                is_updated: true,
                additional: pointwise_sum(self.additional, other.additional),
            }
        }
    }

    /// Whether every sum that `merge_add` forms fits its counter.
    pub open spec fn update_fits(self, other: OpcodeRecordView) -> bool {
        other.is_updated ==> {
            &&& self.total_time + other.total_time <= u64::MAX
            &&& pointwise_fits(self.additional, other.additional)
            &&& Self::table_fits(self.table, other.table)
            &&& self.sload.absorb_fits(other.sload)
        }
    }

    /// Every counter and every bucket is zero.
    pub open spec fn holds_nothing(self) -> bool {
        &&& self.total_time == 0
        &&& forall|i: int| 0 <= i < self.additional.len() ==> self.additional[i] == 0
        &&& forall|i: int| 0 <= i < self.table.len() ==> self.table[i] == (0nat, 0nat, 0int)
        &&& self.sload.holds_nothing()
    }

    /// The sequences have the lengths of the arrays of an `OpcodeRecord`, as
    /// the view of every `OpcodeRecord` has.
    pub open spec fn has_shape(self) -> bool {
        &&& self.table.len() == OPCODE_SLOTS
        &&& self.additional.len() == CALL_OPCODE_LEN
        &&& self.sload.has_shape()
    }
}

/// All performance information on the execution of opcodes.
#[derive(Debug, Clone, Copy, PartialEq, Eq)]
pub struct OpcodeRecord {
    /// For each opcode, at its value: (count, cycles, gas).
    pub opcode_record: [(u64, u64, i128); OPCODE_SLOTS],
    /// The time distribution of `SLOAD`.
    pub sload_percentile: TimeDistributionStats,
    /// The cycles of all opcodes together.
    pub total_time: u64,
    /// Whether an opcode was recorded.
    pub is_updated: bool,
    /// Counter readings that came on top while call-like opcodes were
    /// measured: (call, call_code, delegate_call, static_call).
    pub additional_count: [u64; CALL_OPCODE_LEN],
}

impl View for OpcodeRecord {
    type V = OpcodeRecordView;

    open spec fn view(&self) -> OpcodeRecordView {
        OpcodeRecordView {
            table: Seq::new(
                OPCODE_SLOTS as nat,
                |i: int|
                    (
                        self.opcode_record[i].0 as nat,
                        self.opcode_record[i].1 as nat,
                        self.opcode_record[i].2 as int,
                    ),
            ),
            sload: self.sload_percentile@,
            total_time: self.total_time as nat,
            is_updated: self.is_updated,
            additional: Seq::new(CALL_OPCODE_LEN as nat, |i: int| self.additional_count[i] as nat),
        }
    }
}

impl Default for OpcodeRecord {
    fn default() -> (r: Self)
        ensures
            r@ == OpcodeRecordView::empty(),
    {
        let r = OpcodeRecord {
            opcode_record: [(0, 0, 0);OPCODE_SLOTS],
            sload_percentile: TimeDistributionStats::default(),
            total_time: 0,
            is_updated: false,
            additional_count: [0u64;CALL_OPCODE_LEN],
        };
        assert(r@.table =~= OpcodeRecordView::empty().table);
        assert(r@.additional =~= OpcodeRecordView::empty().additional);
        r
    }
}

impl OpcodeRecord {
    /// Decides whether `update` can take `other`: every sum that it forms fits
    /// its counter.
    pub fn can_update(&self, other: &OpcodeRecord) -> (r: bool)
        ensures
            r == self@.update_fits(other@),
    {
        if !other.is_updated {
            return true;
        }
        if self.total_time > u64::MAX - other.total_time {
            return false;
        }
        let mut i: usize = 0;
        while i < CALL_OPCODE_LEN
            invariant
                i <= CALL_OPCODE_LEN,
                other.is_updated,
                forall|j: int|
                    0 <= j < i ==> self@.additional[j] + other@.additional[j] <= u64::MAX,
            decreases CALL_OPCODE_LEN - i,
        {
            if self.additional_count[i] > u64::MAX - other.additional_count[i] {
                assert(self@.additional[i as int] + other@.additional[i as int] > u64::MAX);
                return false;
            }
            assert(self@.additional[i as int] + other@.additional[i as int] <= u64::MAX);
            i = i + 1;
        }
        let mut i: usize = 0;
        while i < OPCODE_SLOTS
            invariant
                i <= OPCODE_SLOTS,
                other.is_updated,
                forall|j: int|
                    0 <= j < i ==> {
                        &&& self@.table[j].0 + other@.table[j].0 <= u64::MAX
                        &&& self@.table[j].1 + other@.table[j].1 <= u64::MAX
                        &&& i128::MIN <= #[trigger] self@.table[j].2 + other@.table[j].2
                            <= i128::MAX
                    },
            decreases OPCODE_SLOTS - i,
        {
            let mine = self.opcode_record[i];
            let theirs = other.opcode_record[i];
            assert(self@.table[i as int] == (mine.0 as nat, mine.1 as nat, mine.2 as int));
            assert(other@.table[i as int] == (theirs.0 as nat, theirs.1 as nat, theirs.2 as int));
            let gas_fits: bool = match mine.2.checked_add(theirs.2) {
                Some(_) => true,
                None => false,
            };
            if mine.0 > u64::MAX - theirs.0 || mine.1 > u64::MAX - theirs.1 || !gas_fits {
                assert(!OpcodeRecordView::table_fits(self@.table, other@.table)) by {
                    if OpcodeRecordView::table_fits(self@.table, other@.table) {
                        assert(i128::MIN <= self@.table[i as int].2 + other@.table[i as int].2
                            <= i128::MAX);
                    }
                }
                return false;
            }
            i = i + 1;
        }
        self.sload_percentile.can_absorb(&other.sload_percentile)
    }

    /// Merges `other` into this record: where `other` was updated, all that
    /// it holds is added to what this record holds, counter by counter and
    /// bucket by bucket, and this record counts as updated; where it was
    /// not, nothing changes. Whether this record was updated before makes no
    /// difference. Nothing that `other` holds is lost: the distribution is
    /// taken in whole, so an empty record that takes an updated one in is
    /// equal to it afterwards. `other` is left as it was.
    pub fn update(&mut self, other: &mut OpcodeRecord)
        requires
            old(self)@.update_fits(old(other)@),
        ensures
            final(self)@ == old(self)@.merge_add(old(other)@),
            old(self)@ == OpcodeRecordView::empty() && old(other).is_updated ==> final(self)@
                == old(other)@,
            *final(other) == *old(other),
    {
        proof {
            if old(self)@ == OpcodeRecordView::empty() && old(other).is_updated {
                lemma_empty_holds_nothing();
                lemma_update_is_addition(old(self)@, old(other)@);
            }
        }
        if !other.is_updated {
            return ;
        }
        self.total_time = self.total_time + other.total_time;

        let mut i: usize = 0;
        while i < CALL_OPCODE_LEN
            invariant
                i <= CALL_OPCODE_LEN,
                pointwise_fits(old(self)@.additional, old(other)@.additional),
                *other == *old(other),
                self.opcode_record == old(self).opcode_record,
                self.sload_percentile == old(self).sload_percentile,
                self.is_updated == old(self).is_updated,
                self.total_time == old(self).total_time + old(other).total_time,
                forall|j: int|
                    0 <= j < i ==> self.additional_count[j] == old(self).additional_count[j] + old(
                        other,
                    ).additional_count[j],
                forall|j: int|
                    i <= j < CALL_OPCODE_LEN ==> self.additional_count[j] == old(
                        self,
                    ).additional_count[j],
            decreases CALL_OPCODE_LEN - i,
        {
            assert(old(self)@.additional[i as int] + old(other)@.additional[i as int] <= u64::MAX);
            self.additional_count[i] = self.additional_count[i] + other.additional_count[i];
            i = i + 1;
        }
        assert(self@.additional =~= pointwise_sum(old(self)@.additional, old(other)@.additional));

        let mut i: usize = 0;
        while i < OPCODE_SLOTS
            invariant
                i <= OPCODE_SLOTS,
                OpcodeRecordView::table_fits(old(self)@.table, old(other)@.table),
                *other == *old(other),
                self.sload_percentile == old(self).sload_percentile,
                self.total_time == old(self).total_time + old(other).total_time,
                self@.additional == pointwise_sum(old(self)@.additional, old(other)@.additional),
                forall|j: int|
                    0 <= j < i ==> {
                        &&& self.opcode_record[j].0 == old(self).opcode_record[j].0 + old(
                            other,
                        ).opcode_record[j].0
                        &&& self.opcode_record[j].1 == old(self).opcode_record[j].1 + old(
                            other,
                        ).opcode_record[j].1
                        &&& self.opcode_record[j].2 == old(self).opcode_record[j].2 + old(
                            other,
                        ).opcode_record[j].2
                    },
                forall|j: int|
                    i <= j < OPCODE_SLOTS ==> self.opcode_record[j] == old(self).opcode_record[j],
            decreases OPCODE_SLOTS - i,
        {
            assert(i128::MIN <= old(self)@.table[i as int].2 + old(other)@.table[i as int].2
                <= i128::MAX);
            let mine = self.opcode_record[i];
            let theirs = other.opcode_record[i];
            self.opcode_record[i] = (mine.0 + theirs.0, mine.1 + theirs.1, mine.2 + theirs.2);
            i = i + 1;
        }
        self.sload_percentile.absorb(&other.sload_percentile);
        self.is_updated = true;
        assert(self@.table =~= OpcodeRecordView::table_sum(old(self)@.table, old(other)@.table));
    }

    /// Counts one execution of `SLOAD` that took `op_time_ns` nanoseconds in
    /// the distribution.
    pub fn add_sload_opcode_record(&mut self, op_time_ns: u64)
        requires
            old(self).sload_percentile.record_fits(op_time_ns),
        ensures
            final(self)@ == (OpcodeRecordView {
                sload: old(self)@.sload.record(op_time_ns as nat),
                ..old(self)@
            }),
    {
        self.sload_percentile.record(op_time_ns);
    }

    /// Whether an opcode was recorded.
    pub fn not_empty(&self) -> (r: bool)
        ensures
            r == self@.is_updated,
    {
        self.is_updated
    }

    /// Adds `count` to the additional count of a call-like opcode; any other
    /// opcode leaves the record as it is.
    pub fn add_additional_count(&mut self, opcode: u8, count: u64)
        requires
            call_opcode_slot(opcode) matches Some(slot) ==> old(self)@.additional[slot] + count
                <= u64::MAX,
        ensures
            final(self)@ == (match call_opcode_slot(opcode) {
                Some(slot) => OpcodeRecordView {
                    additional: old(self)@.additional.update(
                        slot,
                        old(self)@.additional[slot] + count as nat,
                    ),
                    ..old(self)@
                },
                None => old(self)@,
            }),
    {
        match call_opcode_index(opcode) {
            Some(index) => {
                assert(old(self)@.additional[index as int] == self.additional_count[index as int]);
                self.additional_count[index] = self.additional_count[index] + count;
                assert(self@.additional =~= old(self)@.additional.update(
                    index as int,
                    old(self)@.additional[index as int] + count as nat,
                ));
                assert(self@.table =~= old(self)@.table);
            },
            None => {},
        }
    }
}

impl OpcodeRecordView {
    /// A record that was never updated holds nothing.
    pub open spec fn is_settled(self) -> bool {
        !self.is_updated ==> self.holds_nothing()
    }
}

/// The view of every record has the lengths of its arrays.
pub proof fn lemma_view_has_shape(record: OpcodeRecord)
    ensures
        record@.has_shape(),
{
}

/// The empty record holds nothing and has the lengths of the arrays.
pub proof fn lemma_empty_holds_nothing()
    ensures
        OpcodeRecordView::empty().holds_nothing(),
        OpcodeRecordView::empty().has_shape(),
        !OpcodeRecordView::empty().is_updated,
{
}

/// Taking the first record over wholesale is no different from adding it
/// up: merged into a record that holds nothing, an updated record gives
/// itself, whatever it holds and whatever its spans.
pub proof fn lemma_update_is_addition(a: OpcodeRecordView, b: OpcodeRecordView)
    requires
        a.has_shape(),
        b.has_shape(),
        b.is_updated,
        a.holds_nothing(),
    ensures
        a.merge_add(b) == b,
{
    assert(a.merge_add(b).table =~= b.table);
    assert(a.merge_add(b).additional =~= b.additional);
    super::distribution::lemma_absorb_into_nothing(a.sload, b.sload);
}

/// Merging an empty, never updated record and a populated one into an empty
/// aggregate, in either order, leaves the aggregate equal to the populated
/// record.
pub proof fn lemma_update_from_empty(populated: OpcodeRecordView)
    requires
        populated.has_shape(),
        populated.is_updated,
    ensures
        OpcodeRecordView::empty().merge_add(OpcodeRecordView::empty()).merge_add(populated)
            == populated,
        OpcodeRecordView::empty().merge_add(populated).merge_add(OpcodeRecordView::empty())
            == populated,
{
    lemma_empty_holds_nothing();
    lemma_update_is_addition(OpcodeRecordView::empty(), populated);
}

/// Merging is associative: merging `c` into the merge of `a` and `b` gives
/// what merging the merge of `b` and `c` into `a` gives. Where `c` was
/// updated, this needs `b` to be settled: a record that was never updated
/// adds nothing by itself, but all that it holds once it has taken `c` in.
pub proof fn lemma_update_associative(a: OpcodeRecordView, b: OpcodeRecordView, c: OpcodeRecordView)
    requires
        a.has_shape(),
        b.has_shape(),
        c.has_shape(),
        c.is_updated ==> b.is_settled(),
    ensures
        a.merge_add(b).merge_add(c) == a.merge_add(b.merge_add(c)),
{
    let left = a.merge_add(b).merge_add(c);
    let right = a.merge_add(b.merge_add(c));
    assert(left.additional =~= right.additional);
    assert(left.table =~= right.table);
    if c.is_updated {
        if b.is_updated {
            super::distribution::lemma_absorb_associative(a.sload, b.sload, c.sload);
        } else {
            super::distribution::lemma_absorb_into_nothing(b.sload, c.sload);
        }
    }
}

/// Merging is commutative: merging `b` into `a` gives what merging `a` into
/// `b` gives, for two updated records whose distributions come out with the
/// same spans, for an updated record and one that was not updated and holds
/// nothing, and for two equal records.
pub proof fn lemma_update_commutative(a: OpcodeRecordView, b: OpcodeRecordView)
    requires
        a.has_shape(),
        b.has_shape(),
        a.is_updated && b.is_updated && a.sload.holds_nothing() == b.sload.holds_nothing()
            ==> a.sload.span_in_us == b.sload.span_in_us && a.sload.span_in_ns
            == b.sload.span_in_ns,
        a.is_updated != b.is_updated ==> a.is_settled() && b.is_settled(),
        !a.is_updated && !b.is_updated ==> a == b,
    ensures
        a.merge_add(b) == b.merge_add(a),
{
    let left = a.merge_add(b);
    let right = b.merge_add(a);
    assert(left.additional =~= right.additional);
    assert(left.table =~= right.table);
    if a.is_updated && b.is_updated {
        super::distribution::lemma_absorb_commutative(a.sload, b.sload);
    } else if a.is_updated {
        super::distribution::lemma_absorb_into_nothing(b.sload, a.sload);
    } else if b.is_updated {
        super::distribution::lemma_absorb_into_nothing(a.sload, b.sload);
    }
}

/// One access to the cache.
pub enum CacheAccess {
    /// A hit in a function.
    Hit(Function),
    /// A miss in a function, with the cycles it cost and the nanoseconds
    /// that those cycles took.
    Miss(Function, nat, nat),
}

impl CacheDbRecordView {
    /// The record after one access.
    pub open spec fn accessed(self, access: CacheAccess) -> CacheDbRecordView {
        match access {
            CacheAccess::Hit(function) => self.hit(function),
            CacheAccess::Miss(function, penalty, penalty_ns) => self.miss(
                function,
                penalty,
                penalty_ns,
            ),
        }
    }

    /// The record after a sequence of accesses, first to last.
    pub open spec fn accessed_all(self, accesses: Seq<CacheAccess>) -> CacheDbRecordView
        decreases accesses.len(),
    {
        if accesses.len() == 0 {
            self
        } else {
            self.accessed_all(accesses.drop_last()).accessed(accesses.last())
        }
    }
}

/// The number of hits among a sequence of accesses.
pub open spec fn hits_among(accesses: Seq<CacheAccess>) -> nat
    decreases accesses.len(),
{
    if accesses.len() == 0 {
        0
    } else {
        hits_among(accesses.drop_last()) + if accesses.last() is Hit {
            1nat
        } else {
            0nat
        }
    }
}

/// The number of misses among a sequence of accesses.
pub open spec fn misses_among(accesses: Seq<CacheAccess>) -> nat
    decreases accesses.len(),
{
    if accesses.len() == 0 {
        0
    } else {
        misses_among(accesses.drop_last()) + if accesses.last() is Miss {
            1nat
        } else {
            0nat
        }
    }
}

/// The cycles that the misses among a sequence of accesses cost.
pub open spec fn penalty_among(accesses: Seq<CacheAccess>) -> nat
    decreases accesses.len(),
{
    if accesses.len() == 0 {
        0
    } else {
        penalty_among(accesses.drop_last()) + match accesses.last() {
            CacheAccess::Miss(_, penalty, _) => penalty,
            CacheAccess::Hit(_) => 0nat,
        }
    }
}

/// Whatever the accesses, a record counts each of them once: the hits grow
/// by the number of hits, the misses by the number of misses, the penalty by
/// the cycles that the misses cost, and the distribution of the penalties by
/// one sample per miss.
pub proof fn lemma_cache_counts_exact_sums(record: CacheDbRecordView, accesses: Seq<CacheAccess>)
    requires
        record.wf(),
    ensures
        record.accessed_all(accesses).wf(),
        total(record.accessed_all(accesses).hits) == total(record.hits) + hits_among(accesses),
        total(record.accessed_all(accesses).misses) == total(record.misses) + misses_among(
            accesses,
        ),
        total(record.accessed_all(accesses).penalty.time) == total(record.penalty.time)
            + penalty_among(accesses),
        record.accessed_all(accesses).penalty.percentile.coarse_total()
            == record.penalty.percentile.coarse_total() + misses_among(accesses),
    decreases accesses.len(),
{
    if accesses.len() > 0 {
        let before = record.accessed_all(accesses.drop_last());
        lemma_cache_counts_exact_sums(record, accesses.drop_last());
        match accesses.last() {
            CacheAccess::Hit(function) => {
                lemma_total_update(before.hits, function.slot(), before.hits[function.slot()] + 1);
            },
            CacheAccess::Miss(function, penalty, penalty_ns) => {
                lemma_total_update(
                    before.misses,
                    function.slot(),
                    before.misses[function.slot()] + 1,
                );
                lemma_total_update(
                    before.penalty.time,
                    function.slot(),
                    before.penalty.time[function.slot()] + penalty,
                );
                lemma_record_counts_once(before.penalty.percentile, penalty_ns);
            },
        }
    }
}

/// Read after a retrieval with nothing recorded in between, a record of the
/// cache shows zero everywhere: no hit, no miss, no penalty and no sample.
pub proof fn lemma_empty_cache_record_is_zero()
    ensures
        CacheDbRecordView::empty().wf(),
        total(CacheDbRecordView::empty().hits) == 0,
        total(CacheDbRecordView::empty().misses) == 0,
        total(CacheDbRecordView::empty().penalty.time) == 0,
        CacheDbRecordView::empty().penalty.percentile.coarse_total() == 0,
        CacheDbRecordView::empty().penalty.percentile.fine_total() == 0,
{
    let empty = CacheDbRecordView::empty();
    lemma_total_zero(empty.hits);
    lemma_total_zero(empty.misses);
    lemma_total_zero(empty.penalty.time);
    lemma_total_zero(empty.penalty.percentile.us);
    lemma_total_zero(empty.penalty.percentile.ns);
}

} // verus!
