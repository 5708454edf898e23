//! The two-resolution time distribution: coarse buckets of one microsecond
//! over the whole range, and fine buckets of a hundred nanoseconds over the
//! low end of it.
use vstd::prelude::*;

verus! {

/// Width of a coarse bucket, in nanoseconds: one microsecond.
pub const COARSE_STEP_IN_NS: u64 = 1000;

/// Width of a fine bucket, in nanoseconds.
pub const FINE_STEP_IN_NS: usize = 100;

/// Number of coarse buckets of a distribution made by `default`.
pub const US_SPAN_SIZE: usize = 200;

/// Number of fine buckets of a distribution made by `default`.
pub const NS_SPAN_SIZE: usize = 40;

/// Capacity of each bucket array.
pub const MAX_ARRAY_SIZE: usize = 200;

/// The sum of a sequence of counts.
pub open spec fn total(counts: Seq<nat>) -> nat
    decreases counts.len(),
{
    if counts.len() == 0 {
        0
    } else {
        total(counts.drop_last()) + counts.last()
    }
}

/// Replacing one count changes the sum by the difference.
pub proof fn lemma_total_update(counts: Seq<nat>, i: int, v: nat)
    requires
        0 <= i < counts.len(),
    ensures
        total(counts.update(i, v)) == total(counts) - counts[i] + v,
    decreases counts.len(),
{
    if i == counts.len() - 1 {
        assert(counts.update(i, v).drop_last() =~= counts.drop_last());
    } else {
        assert(counts.update(i, v).drop_last() =~= counts.drop_last().update(i, v));
        lemma_total_update(counts.drop_last(), i, v);
    }
}

/// A sequence of zeros sums to zero.
pub proof fn lemma_total_zero(counts: Seq<nat>)
    requires
        forall|i: int| 0 <= i < counts.len() ==> counts[i] == 0,
    ensures
        total(counts) == 0,
    decreases counts.len(),
{
    if counts.len() > 0 {
        lemma_total_zero(counts.drop_last());
    }
}

/// The sum of a pointwise sum is the sum of the sums.
pub proof fn lemma_total_pointwise(a: Seq<nat>, b: Seq<nat>, sum: Seq<nat>)
    requires
        a.len() == b.len(),
        a.len() == sum.len(),
        forall|i: int| 0 <= i < a.len() ==> sum[i] == a[i] + b[i],
    ensures
        total(sum) == total(a) + total(b),
    decreases a.len(),
{
    if a.len() > 0 {
        lemma_total_pointwise(a.drop_last(), b.drop_last(), sum.drop_last());
    }
}

/// The sum of a prefix grows by the element that the prefix grows by, and
/// never exceeds the sum of the whole.
pub proof fn lemma_total_prefix(counts: Seq<nat>, n: int)
    requires
        0 <= n <= counts.len(),
    ensures
        n < counts.len() ==> total(counts.take(n + 1)) == total(counts.take(n)) + counts[n],
        total(counts.take(n)) <= total(counts),
    decreases counts.len() - n,
{
    if n < counts.len() {
        assert(counts.take(n + 1).drop_last() =~= counts.take(n));
        lemma_total_prefix(counts, n + 1);
    } else {
        assert(counts.take(n) =~= counts);
    }
}

/// A time distribution as mathematics: two sequences of unbounded counts and
/// the number of buckets in use of each.
pub struct DistributionView {
    /// Number of coarse buckets in use.
    pub span_in_us: nat,
    /// Number of fine buckets in use.
    pub span_in_ns: nat,
    /// Count of each coarse bucket.
    pub us: Seq<nat>,
    /// Count of each fine bucket.
    pub ns: Seq<nat>,
}

impl DistributionView {
    /// The distribution of the given spans that holds no sample.
    pub open spec fn empty(span_in_us: nat, span_in_ns: nat) -> DistributionView {
        DistributionView {
            span_in_us,
            span_in_ns,
            us: Seq::new(MAX_ARRAY_SIZE as nat, |i: int| 0nat),
            ns: Seq::new(MAX_ARRAY_SIZE as nat, |i: int| 0nat),
        }
    }

    /// Both spans lie within the arrays, and there is a coarse bucket to clamp to.
    pub open spec fn spans_fit(self) -> bool {
        &&& self.us.len() == MAX_ARRAY_SIZE
        &&& self.ns.len() == MAX_ARRAY_SIZE
        &&& 1 <= self.span_in_us <= MAX_ARRAY_SIZE
        &&& self.span_in_ns <= MAX_ARRAY_SIZE
    }

    /// The spans fit, and no bucket outside them holds a count.
    pub open spec fn wf(self) -> bool {
        &&& self.spans_fit()
        &&& forall|i: int| self.span_in_us <= i < MAX_ARRAY_SIZE ==> self.us[i] == 0
        &&& forall|i: int| self.span_in_ns <= i < MAX_ARRAY_SIZE ==> self.ns[i] == 0
    }

    /// The coarse bucket of a sample: its whole microseconds, clamped to the
    /// last bucket in use.
    pub open spec fn coarse_index(self, time_in_ns: nat) -> int {
        let bucket = time_in_ns / (COARSE_STEP_IN_NS as nat);
        if bucket >= self.span_in_us - 1 {
            self.span_in_us - 1
        } else {
            bucket as int
        }
    }

    /// Whether a sample is small enough to have a fine bucket.
    pub open spec fn in_fine_window(self, time_in_ns: nat) -> bool {
        time_in_ns < self.span_in_ns * FINE_STEP_IN_NS as nat
    }

    /// The fine bucket of a sample within the fine window.
    pub open spec fn fine_index(self, time_in_ns: nat) -> int {
        (time_in_ns / FINE_STEP_IN_NS as nat) as int
    }

    /// The distribution after one more sample.
    pub open spec fn record(self, time_in_ns: nat) -> DistributionView {
        let coarse = self.coarse_index(time_in_ns);
        let fine = self.fine_index(time_in_ns);
        DistributionView {
            us: self.us.update(coarse, self.us[coarse] + 1),
            ns: if self.in_fine_window(time_in_ns) {
                self.ns.update(fine, self.ns[fine] + 1)
            } else {
                self.ns
            },
            ..self
        }
    }

    /// The distribution after a sequence of samples, first to last.
    pub open spec fn record_all(self, samples: Seq<nat>) -> DistributionView
        decreases samples.len(),
    {
        if samples.len() == 0 {
            self
        } else {
            self.record_all(samples.drop_last()).record(samples.last())
        }
    }

    /// How many of the samples fall within the fine window.
    pub open spec fn count_in_fine_window(self, samples: Seq<nat>) -> nat
        decreases samples.len(),
    {
        if samples.len() == 0 {
            0
        } else {
            self.count_in_fine_window(samples.drop_last()) + if self.in_fine_window(
                samples.last(),
            ) {
                1nat
            } else {
                0nat
            }
        }
    }

    /// Whether every bucket that a sample would increment can still be
    /// incremented within a `u64`.
    pub open spec fn record_fits(self, time_in_ns: nat) -> bool {
        &&& self.us[self.coarse_index(time_in_ns)] < u64::MAX
        &&& self.in_fine_window(time_in_ns) ==> self.ns[self.fine_index(time_in_ns)] < u64::MAX
    }

    /// The distribution after the buckets in use of `self` have each taken up
    /// the count of the same bucket of `other`.
    pub open spec fn merge(self, other: DistributionView) -> DistributionView {
        DistributionView {
            us: Seq::new(
                self.us.len(),
                |i: int|
                    if i < self.span_in_us {
                        self.us[i] + other.us[i]
                    } else {
                        self.us[i]
                    },
            ),
            ns: Seq::new(
                self.ns.len(),
                |i: int|
                    if i < self.span_in_ns {
                        self.ns[i] + other.ns[i]
                    } else {
                        self.ns[i]
                    },
            ),
            ..self
        }
    }

    /// Whether every sum that `merge` forms fits in a `u64`.
    pub open spec fn merge_fits(self, other: DistributionView) -> bool {
        &&& forall|i: int| 0 <= i < self.span_in_us ==> self.us[i] + other.us[i] <= u64::MAX
        &&& forall|i: int| 0 <= i < self.span_in_ns ==> self.ns[i] + other.ns[i] <= u64::MAX
    }

    /// Both sequences have the length of the bucket arrays, as the view of
    /// every `TimeDistributionStats` has.
    pub open spec fn has_shape(self) -> bool {
        &&& self.us.len() == MAX_ARRAY_SIZE
        &&& self.ns.len() == MAX_ARRAY_SIZE
    }

    /// No bucket holds a count, in use or not.
    pub open spec fn holds_nothing(self) -> bool {
        &&& forall|i: int| 0 <= i < self.us.len() ==> self.us[i] == 0
        &&& forall|i: int| 0 <= i < self.ns.len() ==> self.ns[i] == 0
    }

    /// The distribution after it has taken `other` in whole: every bucket of
    /// both arrays takes up the count of the same bucket of `other`, in use
    /// or not, and a distribution that held nothing takes the spans of
    /// `other` as well.
    pub open spec fn absorb(self, other: DistributionView) -> DistributionView {
        DistributionView {
            span_in_us: if self.holds_nothing() {
                other.span_in_us
            } else {
                self.span_in_us
            },
            span_in_ns: if self.holds_nothing() {
                other.span_in_ns
            } else {
                self.span_in_ns
            },
            us: Seq::new(self.us.len(), |i: int| self.us[i] + other.us[i]),
            ns: Seq::new(self.ns.len(), |i: int| self.ns[i] + other.ns[i]),
        }
    }

    /// Whether every sum that `absorb` forms fits in a `u64`.
    pub open spec fn absorb_fits(self, other: DistributionView) -> bool {
        &&& forall|i: int| 0 <= i < self.us.len() ==> self.us[i] + other.us[i] <= u64::MAX
        &&& forall|i: int| 0 <= i < self.ns.len() ==> self.ns[i] + other.ns[i] <= u64::MAX
    }

    /// The number of samples counted in the coarse buckets.
    pub open spec fn coarse_total(self) -> nat {
        total(self.us)
    }

    /// The number of samples counted in the fine buckets.
    pub open spec fn fine_total(self) -> nat {
        total(self.ns)
    }
}

/// A statistical time distribution at two resolutions.
///
/// Every sample is counted in exactly one coarse bucket, the last one in use
/// taking all that lie beyond it; a sample within the fine window is counted
/// in one fine bucket as well.
#[derive(Debug, Clone, Copy, PartialEq, Eq)]
pub struct TimeDistributionStats {
    /// Number of coarse buckets in use; the step is `COARSE_STEP_IN_NS`.
    pub span_in_us: usize,
    /// Number of fine buckets in use; the step is `FINE_STEP_IN_NS`.
    pub span_in_ns: usize,
    /// The distribution at the level of microseconds.
    pub us_percentile: [u64; MAX_ARRAY_SIZE],
    /// The distribution at the level of nanoseconds.
    pub ns_percentile: [u64; MAX_ARRAY_SIZE],
}

impl View for TimeDistributionStats {
    type V = DistributionView;

    open spec fn view(&self) -> DistributionView {
        DistributionView {
            span_in_us: self.span_in_us as nat,
            span_in_ns: self.span_in_ns as nat,
            us: Seq::new(MAX_ARRAY_SIZE as nat, |i: int| self.us_percentile[i] as nat),
            ns: Seq::new(MAX_ARRAY_SIZE as nat, |i: int| self.ns_percentile[i] as nat),
        }
    }
}

impl Default for TimeDistributionStats {
    fn default() -> (r: Self)
        ensures
            r@ == DistributionView::empty(US_SPAN_SIZE as nat, NS_SPAN_SIZE as nat),
    {
        Self::new(US_SPAN_SIZE, NS_SPAN_SIZE)
    }
}

impl TimeDistributionStats {
    /// An empty distribution with the given numbers of buckets in use.
    pub fn new(span_in_us: usize, span_in_ns: usize) -> (r: Self)
        ensures
            r@ == DistributionView::empty(span_in_us as nat, span_in_ns as nat),
    {
        let r = TimeDistributionStats {
            span_in_us,
            span_in_ns,
            us_percentile: [0;MAX_ARRAY_SIZE],
            ns_percentile: [0;MAX_ARRAY_SIZE],
        };
        assert(r@.us =~= DistributionView::empty(span_in_us as nat, span_in_ns as nat).us);
        assert(r@.ns =~= DistributionView::empty(span_in_us as nat, span_in_ns as nat).ns);
        r
    }

    /// Whether `update` can take `other`: the spans lie within the arrays and
    /// every sum fits its bucket.
    pub open spec fn update_fits(self, other: TimeDistributionStats) -> bool {
        &&& self.span_in_us <= MAX_ARRAY_SIZE
        &&& self.span_in_ns <= MAX_ARRAY_SIZE
        &&& self@.merge_fits(other@)
    }

    /// Whether `record` can take a sample of `time_in_ns` nanoseconds: the
    /// spans fit and the buckets of the sample are not full.
    pub open spec fn record_fits(self, time_in_ns: u64) -> bool {
        &&& self@.spans_fit()
        &&& self@.record_fits(time_in_ns as nat)
    }

    /// Decides whether the distribution is valid: the spans fit, and no
    /// bucket outside them holds a count.
    pub fn check_wf(&self) -> (r: bool)
        ensures
            r == self@.wf(),
    {
        if self.span_in_us < 1 || self.span_in_us > MAX_ARRAY_SIZE || self.span_in_ns
            > MAX_ARRAY_SIZE {
            return false;
        }
        let mut index: usize = self.span_in_us;
        while index < MAX_ARRAY_SIZE
            invariant
                self.span_in_us <= index <= MAX_ARRAY_SIZE,
                forall|j: int| self.span_in_us <= j < index ==> self@.us[j] == 0,
            decreases MAX_ARRAY_SIZE - index,
        {
            if self.us_percentile[index] != 0 {
                assert(self@.us[index as int] != 0);
                return false;
            }
            assert(self@.us[index as int] == 0);
            index = index + 1;
        }
        let mut index: usize = self.span_in_ns;
        while index < MAX_ARRAY_SIZE
            invariant
                self.span_in_ns <= index <= MAX_ARRAY_SIZE,
                forall|j: int| self.span_in_ns <= j < index ==> self@.ns[j] == 0,
            decreases MAX_ARRAY_SIZE - index,
        {
            if self.ns_percentile[index] != 0 {
                assert(self@.ns[index as int] != 0);
                return false;
            }
            assert(self@.ns[index as int] == 0);
            index = index + 1;
        }
        true
    }

    /// Decides `update_fits`.
    pub fn can_update(&self, other: &TimeDistributionStats) -> (r: bool)
        ensures
            r == self.update_fits(*other),
    {
        if self.span_in_us > MAX_ARRAY_SIZE || self.span_in_ns > MAX_ARRAY_SIZE {
            return false;
        }
        let mut index: usize = 0;
        while index < self.span_in_us
            invariant
                index <= self.span_in_us <= MAX_ARRAY_SIZE,
                forall|j: int| 0 <= j < index ==> self@.us[j] + other@.us[j] <= u64::MAX,
            decreases self.span_in_us - index,
        {
            if self.us_percentile[index] > u64::MAX - other.us_percentile[index] {
                assert(self@.us[index as int] + other@.us[index as int] > u64::MAX);
                return false;
            }
            assert(self@.us[index as int] + other@.us[index as int] <= u64::MAX);
            index = index + 1;
        }
        let mut index: usize = 0;
        while index < self.span_in_ns
            invariant
                index <= self.span_in_ns <= MAX_ARRAY_SIZE,
                forall|j: int| 0 <= j < index ==> self@.ns[j] + other@.ns[j] <= u64::MAX,
            decreases self.span_in_ns - index,
        {
            if self.ns_percentile[index] > u64::MAX - other.ns_percentile[index] {
                assert(self@.ns[index as int] + other@.ns[index as int] > u64::MAX);
                return false;
            }
            assert(self@.ns[index as int] + other@.ns[index as int] <= u64::MAX);
            index = index + 1;
        }
        true
    }

    /// Decides `record_fits`.
    pub fn can_record(&self, time_in_ns: u64) -> (r: bool)
        ensures
            r == self.record_fits(time_in_ns),
    {
        if self.span_in_us < 1 || self.span_in_us > MAX_ARRAY_SIZE || self.span_in_ns
            > MAX_ARRAY_SIZE {
            return false;
        }
        let bucket: u64 = time_in_ns / COARSE_STEP_IN_NS;
        let last: usize = self.span_in_us - 1;
        let index: usize = if bucket >= last as u64 {
            last
        } else {
            bucket as usize
        };
        assert(index as int == self@.coarse_index(time_in_ns as nat));
        assert(self@.us[index as int] == self.us_percentile[index as int]);
        if self.us_percentile[index] == u64::MAX {
            return false;
        }
        let window: u64 = (self.span_in_ns * FINE_STEP_IN_NS) as u64;
        if time_in_ns < window {
            let index: usize = (time_in_ns / (FINE_STEP_IN_NS as u64)) as usize;
            assert(index as int == self@.fine_index(time_in_ns as nat));
            assert(self@.ns[index as int] == self.ns_percentile[index as int]);
            if self.ns_percentile[index] == u64::MAX {
                return false;
            }
        }
        true
    }

    /// Decides whether `absorb` can take `other`: every sum fits its bucket.
    pub fn can_absorb(&self, other: &TimeDistributionStats) -> (r: bool)
        ensures
            r == self@.absorb_fits(other@),
    {
        let mut index: usize = 0;
        while index < MAX_ARRAY_SIZE
            invariant
                index <= MAX_ARRAY_SIZE,
                forall|j: int| 0 <= j < index ==> self@.us[j] + other@.us[j] <= u64::MAX,
                forall|j: int| 0 <= j < index ==> self@.ns[j] + other@.ns[j] <= u64::MAX,
            decreases MAX_ARRAY_SIZE - index,
        {
            if self.us_percentile[index] > u64::MAX - other.us_percentile[index] {
                assert(self@.us[index as int] + other@.us[index as int] > u64::MAX);
                return false;
            }
            if self.ns_percentile[index] > u64::MAX - other.ns_percentile[index] {
                assert(self@.ns[index as int] + other@.ns[index as int] > u64::MAX);
                return false;
            }
            assert(self@.us[index as int] + other@.us[index as int] <= u64::MAX);
            assert(self@.ns[index as int] + other@.ns[index as int] <= u64::MAX);
            index = index + 1;
        }
        true
    }

    /// Takes `other` in whole: the count of every bucket of `other` is added
    /// to the same bucket of this distribution, in use or not, so that no
    /// count of `other` is lost. A distribution that held nothing takes the
    /// spans of `other` as well, and is then equal to it.
    pub fn absorb(&mut self, other: &TimeDistributionStats)
        requires
            old(self)@.absorb_fits(other@),
        ensures
            final(self)@ == old(self)@.absorb(other@),
    {
        let mut blank: bool = true;
        let mut index: usize = 0;
        while index < MAX_ARRAY_SIZE
            invariant
                index <= MAX_ARRAY_SIZE,
                self.span_in_us == old(self).span_in_us,
                self.span_in_ns == old(self).span_in_ns,
                old(self)@.absorb_fits(other@),
                blank <==> (forall|j: int|
                    0 <= j < index ==> old(self).us_percentile[j] == 0 && old(
                        self,
                    ).ns_percentile[j] == 0),
                forall|j: int|
                    0 <= j < index ==> self.us_percentile[j] == old(self).us_percentile[j]
                        + other.us_percentile[j],
                forall|j: int|
                    0 <= j < index ==> self.ns_percentile[j] == old(self).ns_percentile[j]
                        + other.ns_percentile[j],
                forall|j: int|
                    index <= j < MAX_ARRAY_SIZE ==> self.us_percentile[j] == old(
                        self,
                    ).us_percentile[j],
                forall|j: int|
                    index <= j < MAX_ARRAY_SIZE ==> self.ns_percentile[j] == old(
                        self,
                    ).ns_percentile[j],
            decreases MAX_ARRAY_SIZE - index,
        {
            assert(old(self)@.us[index as int] + other@.us[index as int] <= u64::MAX);
            assert(old(self)@.ns[index as int] + other@.ns[index as int] <= u64::MAX);
            if self.us_percentile[index] != 0 || self.ns_percentile[index] != 0 {
                blank = false;
            }
            self.us_percentile[index] = self.us_percentile[index] + other.us_percentile[index];
            self.ns_percentile[index] = self.ns_percentile[index] + other.ns_percentile[index];
            index = index + 1;
        }
        assert(blank <==> old(self)@.holds_nothing()) by {
            if blank {
                assert forall|i: int| 0 <= i < old(self)@.us.len() implies old(self)@.us[i]
                    == 0 by {
                    assert(old(self).us_percentile[i] == 0);
                }
                assert forall|i: int| 0 <= i < old(self)@.ns.len() implies old(self)@.ns[i]
                    == 0 by {
                    assert(old(self).ns_percentile[i] == 0);
                }
            } else {
                let j = choose|j: int|
                    0 <= j < MAX_ARRAY_SIZE && !(old(self).us_percentile[j] == 0 && old(
                        self,
                    ).ns_percentile[j] == 0);
                assert(old(self)@.us[j] == old(self).us_percentile[j]);
                assert(old(self)@.ns[j] == old(self).ns_percentile[j]);
            }
        }
        if blank {
            self.span_in_us = other.span_in_us;
            self.span_in_ns = other.span_in_ns;
        }
        assert(self@.us =~= old(self)@.absorb(other@).us);
        assert(self@.ns =~= old(self)@.absorb(other@).ns);
    }

    /// Adds the counts of `other` to the buckets in use, bucket by bucket.
    pub fn update(&mut self, other: &TimeDistributionStats)
        requires
            old(self).update_fits(*other),
        ensures
            final(self)@ == old(self)@.merge(other@),
    {
        let mut index: usize = 0;
        while index < self.span_in_us
            invariant
                index <= self.span_in_us <= MAX_ARRAY_SIZE,
                self.span_in_us == old(self).span_in_us,
                self.span_in_ns == old(self).span_in_ns,
                self.ns_percentile == old(self).ns_percentile,
                old(self)@.merge_fits(other@),
                forall|j: int|
                    0 <= j < index ==> self.us_percentile[j] == old(self).us_percentile[j]
                        + other.us_percentile[j],
                forall|j: int|
                    index <= j < MAX_ARRAY_SIZE ==> self.us_percentile[j] == old(
                        self,
                    ).us_percentile[j],
            decreases self.span_in_us - index,
        {
            assert(old(self)@.us[index as int] + other@.us[index as int] <= u64::MAX);
            self.us_percentile[index] = self.us_percentile[index] + other.us_percentile[index];
            index = index + 1;
        }
        let mut index: usize = 0;
        while index < self.span_in_ns
            invariant
                index <= self.span_in_ns <= MAX_ARRAY_SIZE,
                self.span_in_us == old(self).span_in_us,
                self.span_in_ns == old(self).span_in_ns,
                old(self)@.merge_fits(other@),
                forall|j: int|
                    0 <= j < self.span_in_us ==> self.us_percentile[j] == old(
                        self,
                    ).us_percentile[j] + other.us_percentile[j],
                forall|j: int|
                    self.span_in_us <= j < MAX_ARRAY_SIZE ==> self.us_percentile[j] == old(
                        self,
                    ).us_percentile[j],
                forall|j: int|
                    0 <= j < index ==> self.ns_percentile[j] == old(self).ns_percentile[j]
                        + other.ns_percentile[j],
                forall|j: int|
                    index <= j < MAX_ARRAY_SIZE ==> self.ns_percentile[j] == old(
                        self,
                    ).ns_percentile[j],
            decreases self.span_in_ns - index,
        {
            assert(old(self)@.ns[index as int] + other@.ns[index as int] <= u64::MAX);
            self.ns_percentile[index] = self.ns_percentile[index] + other.ns_percentile[index];
            index = index + 1;
        }
        assert(self@.us =~= old(self)@.merge(other@).us);
        assert(self@.ns =~= old(self)@.merge(other@).ns);
    }

    /// Counts one sample of `time_in_ns` nanoseconds.
    pub fn record(&mut self, time_in_ns: u64)
        requires
            old(self).record_fits(time_in_ns),
        ensures
            final(self)@ == old(self)@.record(time_in_ns as nat),
    {
        let bucket: u64 = time_in_ns / COARSE_STEP_IN_NS;
        let last: usize = self.span_in_us - 1;
        let index: usize = if bucket >= last as u64 {
            last
        } else {
            bucket as usize
        };
        assert(index as int == old(self)@.coarse_index(time_in_ns as nat));
        self.us_percentile[index] = self.us_percentile[index] + 1;
        assert(self@.us =~= old(self)@.record(time_in_ns as nat).us);

        let window: u64 = (self.span_in_ns * FINE_STEP_IN_NS) as u64;
        if time_in_ns < window {
            let index: usize = (time_in_ns / (FINE_STEP_IN_NS as u64)) as usize;
            assert(index as int == old(self)@.fine_index(time_in_ns as nat));
            self.ns_percentile[index] = self.ns_percentile[index] + 1;
        }
        assert(self@.ns =~= old(self)@.record(time_in_ns as nat).ns);
    }
}

/// Every sample is counted in exactly one coarse bucket, and in one fine
/// bucket if and only if it lies within the fine window; the spans and the
/// validity of the distribution stay as they were.
pub proof fn lemma_record_counts_once(h: DistributionView, time_in_ns: nat)
    requires
        h.spans_fit(),
    ensures
        h.record(time_in_ns).spans_fit(),
        h.wf() ==> h.record(time_in_ns).wf(),
        h.record(time_in_ns).coarse_total() == h.coarse_total() + 1,
        h.record(time_in_ns).fine_total() == h.fine_total() + if h.in_fine_window(time_in_ns) {
            1nat
        } else {
            0nat
        },
{
    let coarse = h.coarse_index(time_in_ns);
    lemma_total_update(h.us, coarse, h.us[coarse] + 1);
    if h.in_fine_window(time_in_ns) {
        let fine = h.fine_index(time_in_ns);
        lemma_total_update(h.ns, fine, h.ns[fine] + 1);
    }
}

/// Whatever the samples, the coarse buckets count every one of them and the
/// fine buckets count those within the fine window, so never more than the
/// coarse ones do.
pub proof fn lemma_record_all_counts(h: DistributionView, samples: Seq<nat>)
    requires
        h.spans_fit(),
    ensures
        h.record_all(samples).spans_fit(),
        h.record_all(samples).span_in_us == h.span_in_us,
        h.record_all(samples).span_in_ns == h.span_in_ns,
        h.wf() ==> h.record_all(samples).wf(),
        h.record_all(samples).coarse_total() == h.coarse_total() + samples.len(),
        h.record_all(samples).fine_total() == h.fine_total() + h.count_in_fine_window(samples),
        h.count_in_fine_window(samples) <= samples.len(),
    decreases samples.len(),
{
    if samples.len() > 0 {
        lemma_record_all_counts(h, samples.drop_last());
        lemma_record_counts_once(h.record_all(samples.drop_last()), samples.last());
    }
}

/// Starting from an empty distribution, the coarse buckets sum to the number
/// of samples recorded and the fine buckets to no more than that.
pub proof fn lemma_histogram_totals(span_in_us: nat, span_in_ns: nat, samples: Seq<nat>)
    requires
        DistributionView::empty(span_in_us, span_in_ns).spans_fit(),
    ensures
        DistributionView::empty(span_in_us, span_in_ns).record_all(samples).coarse_total()
            == samples.len(),
        DistributionView::empty(span_in_us, span_in_ns).record_all(samples).fine_total()
            <= samples.len(),
{
    let h = DistributionView::empty(span_in_us, span_in_ns);
    lemma_total_zero(h.us);
    lemma_total_zero(h.ns);
    lemma_record_all_counts(h, samples);
}

/// Merging two valid distributions of the same spans adds up their numbers
/// of samples, at both resolutions.
pub proof fn lemma_merge_totals(a: DistributionView, b: DistributionView)
    requires
        a.wf(),
        b.wf(),
        a.span_in_us == b.span_in_us,
        a.span_in_ns == b.span_in_ns,
    ensures
        a.merge(b).wf(),
        a.merge(b).coarse_total() == a.coarse_total() + b.coarse_total(),
        a.merge(b).fine_total() == a.fine_total() + b.fine_total(),
{
    lemma_total_pointwise(a.us, b.us, a.merge(b).us);
    lemma_total_pointwise(a.ns, b.ns, a.merge(b).ns);
}

/// Merging is associative: merging `c` into the merge of `a` and `b` gives
/// what merging the merge of `b` and `c` into `a` gives. This holds as long
/// as `c` holds nothing in a bucket that `a` uses and `b` does not; it always
/// does where `b` has at least the spans of `a`.
pub proof fn lemma_merge_associative(a: DistributionView, b: DistributionView, c: DistributionView)
    requires
        a.us.len() == b.us.len(),
        a.ns.len() == b.ns.len(),
        forall|i: int| b.span_in_us <= i < a.span_in_us && i < a.us.len() ==> c.us[i] == 0,
        forall|i: int| b.span_in_ns <= i < a.span_in_ns && i < a.ns.len() ==> c.ns[i] == 0,
    ensures
        a.merge(b).merge(c) == a.merge(b.merge(c)),
{
    assert(a.merge(b).merge(c).us =~= a.merge(b.merge(c)).us);
    assert(a.merge(b).merge(c).ns =~= a.merge(b.merge(c)).ns);
}

/// Merging is commutative on valid distributions of the same spans.
pub proof fn lemma_merge_commutative(a: DistributionView, b: DistributionView)
    requires
        a.wf(),
        b.wf(),
        a.span_in_us == b.span_in_us,
        a.span_in_ns == b.span_in_ns,
    ensures
        a.merge(b) == b.merge(a),
{
    assert(a.merge(b).us =~= b.merge(a).us);
    assert(a.merge(b).ns =~= b.merge(a).ns);
}

/// Merging an empty distribution into another changes nothing, and merging
/// a valid distribution into an empty one of the same spans gives that
/// distribution.
pub proof fn lemma_merge_empty(a: DistributionView)
    requires
        a.wf(),
    ensures
        a.merge(DistributionView::empty(a.span_in_us, a.span_in_ns)) == a,
        DistributionView::empty(a.span_in_us, a.span_in_ns).merge(a) == a,
{
    let e = DistributionView::empty(a.span_in_us, a.span_in_ns);
    assert(a.merge(e).us =~= a.us);
    assert(a.merge(e).ns =~= a.ns);
    assert(e.merge(a).us =~= a.us);
    assert(e.merge(a).ns =~= a.ns);
}

/// Taking a distribution in whole loses no sample: the numbers of samples
/// add up, at both resolutions.
pub proof fn lemma_absorb_totals(a: DistributionView, b: DistributionView)
    requires
        a.has_shape(),
        b.has_shape(),
    ensures
        a.absorb(b).has_shape(),
        a.absorb(b).coarse_total() == a.coarse_total() + b.coarse_total(),
        a.absorb(b).fine_total() == a.fine_total() + b.fine_total(),
{
    lemma_total_pointwise(a.us, b.us, a.absorb(b).us);
    lemma_total_pointwise(a.ns, b.ns, a.absorb(b).ns);
}

/// A distribution that holds nothing becomes the one that it takes in, and a
/// distribution that takes in one that holds nothing stays as it is.
pub proof fn lemma_absorb_into_nothing(a: DistributionView, b: DistributionView)
    requires
        a.has_shape(),
        b.has_shape(),
        a.holds_nothing(),
    ensures
        a.absorb(b) == b,
        b.absorb(a).us == b.us,
        b.absorb(a).ns == b.ns,
        !b.holds_nothing() ==> b.absorb(a) == b,
{
    assert(a.absorb(b).us =~= b.us);
    assert(a.absorb(b).ns =~= b.ns);
    assert(b.absorb(a).us =~= b.us);
    assert(b.absorb(a).ns =~= b.ns);
}

/// Taking in whole is associative: taking `c` into what `a` has become by
/// taking `b` in gives what `a` becomes by taking in what `b` has become by
/// taking `c` in.
pub proof fn lemma_absorb_associative(a: DistributionView, b: DistributionView, c: DistributionView)
    requires
        a.has_shape(),
        b.has_shape(),
        c.has_shape(),
    ensures
        a.absorb(b).absorb(c) == a.absorb(b.absorb(c)),
{
    let ab = a.absorb(b);
    let bc = b.absorb(c);
    assert(ab.absorb(c).us =~= a.absorb(bc).us);
    assert(ab.absorb(c).ns =~= a.absorb(bc).ns);
    if a.holds_nothing() {
        assert(ab.us =~= b.us);
        assert(ab.ns =~= b.ns);
    } else {
        lemma_absorb_keeps_counts(a, b);
    }
    if b.holds_nothing() {
        assert(bc.us =~= c.us);
        assert(bc.ns =~= c.ns);
    } else {
        lemma_absorb_keeps_counts(b, c);
    }
    if a.holds_nothing() && b.holds_nothing() {
        assert(ab.holds_nothing());
    }
}

/// A distribution that holds a count still holds one after it has taken
/// another in.
pub proof fn lemma_absorb_keeps_counts(a: DistributionView, b: DistributionView)
    requires
        !a.holds_nothing(),
    ensures
        !a.absorb(b).holds_nothing(),
{
    if a.absorb(b).holds_nothing() {
        assert forall|i: int| 0 <= i < a.us.len() implies a.us[i] == 0 by {
            assert(a.absorb(b).us[i] == 0);
        }
        assert forall|i: int| 0 <= i < a.ns.len() implies a.ns[i] == 0 by {
            assert(a.absorb(b).ns[i] == 0);
        }
    }
}

/// Taking in whole is commutative wherever the spans come out the same: for
/// two distributions of the same spans, and for two of which exactly one
/// holds nothing.
pub proof fn lemma_absorb_commutative(a: DistributionView, b: DistributionView)
    requires
        a.has_shape(),
        b.has_shape(),
        a.holds_nothing() == b.holds_nothing() ==> a.span_in_us == b.span_in_us && a.span_in_ns
            == b.span_in_ns,
    ensures
        a.absorb(b) == b.absorb(a),
{
    assert(a.absorb(b).us =~= b.absorb(a).us);
    assert(a.absorb(b).ns =~= b.absorb(a).ns);
}

} // verus!
