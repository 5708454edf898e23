//! The recorder of the time that each part of one transaction takes.
//!
//! The parts follow one another on a single running clock: recording a part
//! attributes the cycles since the last recording to it and restarts the
//! clock, so that adjacent parts never count a cycle twice.
use super::types::{TransactPreverifiedInnerTime, TransactTime};
use crate::utils::time_utils::instant::Instant;
use vstd::prelude::*;

verus! {

/// A part of a transaction whose time is recorded.
#[derive(Debug, Clone, Copy, PartialEq, Eq)]
pub enum TransactPhase {
    PreverifyTransactionInner,
    BeforeExecute,
    Execute,
    AfterExecute,
    HandleEnd,
}

/// Measures the time of each part of a transaction.
#[derive(Debug, Clone, Copy, PartialEq, Eq)]
pub struct TransactDurationRecorder {
    /// When the transaction started.
    pub start_record: Instant,
    /// When the part that is running started.
    pub sub_record: Instant,
    /// The time of each part so far.
    pub transact_time: TransactTime,
}

impl Default for TransactDurationRecorder {
    fn default() -> (r: Self)
        ensures
            r == (TransactDurationRecorder {
                start_record: Instant(0),
                sub_record: Instant(0),
                transact_time: TransactTime::zero(),
            }),
    {
        TransactDurationRecorder {
            start_record: Instant::default(),
            sub_record: Instant::default(),
            transact_time: TransactTime::default(),
        }
    }
}

impl TransactDurationRecorder {
    /// The cycles recorded for `phase` so far.
    pub open spec fn phase_time(self, phase: TransactPhase) -> u64 {
        match phase {
            TransactPhase::PreverifyTransactionInner => self.transact_time.preverify_transaction_inner,
            TransactPhase::BeforeExecute => self.transact_time.transact_preverified_inner.before_execute,
            TransactPhase::Execute => self.transact_time.transact_preverified_inner.execute,
            TransactPhase::AfterExecute => self.transact_time.transact_preverified_inner.after_execute,
            TransactPhase::HandleEnd => self.transact_time.handle_end,
        }
    }

    /// The cycles from the start of the running part to `now`.
    pub open spec fn lap(self, now: Instant) -> u64 {
        now.elapsed_since(self.sub_record)
    }

    /// Whether the time of `phase` can take the cycles up to `now`.
    pub open spec fn lap_fits(self, phase: TransactPhase, now: Instant) -> bool {
        self.phase_time(phase) + self.lap(now) <= u64::MAX
    }

    /// The recorder after the cycles up to `now` have gone to `phase` and the
    /// next part has started at `now`.
    pub open spec fn lapped(self, phase: TransactPhase, now: Instant) -> Self {
        let time = (self.phase_time(phase) + self.lap(now)) as u64;
        let inner = self.transact_time.transact_preverified_inner;
        let transact_time = match phase {
            TransactPhase::PreverifyTransactionInner => TransactTime {
                preverify_transaction_inner: time,
                ..self.transact_time
            },
            TransactPhase::BeforeExecute => TransactTime {
                transact_preverified_inner: TransactPreverifiedInnerTime {
                    before_execute: time,
                    ..inner
                },
                ..self.transact_time
            },
            TransactPhase::Execute => TransactTime {
                transact_preverified_inner: TransactPreverifiedInnerTime { execute: time, ..inner },
                ..self.transact_time
            },
            TransactPhase::AfterExecute => TransactTime {
                transact_preverified_inner: TransactPreverifiedInnerTime {
                    after_execute: time,
                    ..inner
                },
                ..self.transact_time
            },
            TransactPhase::HandleEnd => TransactTime { handle_end: time, ..self.transact_time },
        };
        TransactDurationRecorder { sub_record: now, transact_time, ..self }
    }

    /// Whether the total can take the cycles from the start to `now`.
    pub open spec fn total_fits(self, now: Instant) -> bool {
        self.transact_time.total + now.elapsed_since(self.start_record) <= u64::MAX
    }

    /// The recorder after the cycles from the start to `now` have been added
    /// to the total.
    pub open spec fn totalled(self, now: Instant) -> Self {
        TransactDurationRecorder {
            transact_time: TransactTime {
                total: (self.transact_time.total + now.elapsed_since(self.start_record)) as u64,
                ..self.transact_time
            },
            ..self
        }
    }

    /// Decides `lap_fits`.
    pub fn can_lap(&self, phase: TransactPhase, now: Instant) -> (r: bool)
        ensures
            r == self.lap_fits(phase, now),
    {
        let time: u64 = match phase {
            TransactPhase::PreverifyTransactionInner => self.transact_time.preverify_transaction_inner,
            TransactPhase::BeforeExecute => self.transact_time.transact_preverified_inner.before_execute,
            TransactPhase::Execute => self.transact_time.transact_preverified_inner.execute,
            TransactPhase::AfterExecute => self.transact_time.transact_preverified_inner.after_execute,
            TransactPhase::HandleEnd => self.transact_time.handle_end,
        };
        time <= u64::MAX - now.cycles_since(self.sub_record)
    }

    /// Decides `total_fits`.
    pub fn can_total(&self, now: Instant) -> (r: bool)
        ensures
            r == self.total_fits(now),
    {
        self.transact_time.total <= u64::MAX - now.cycles_since(self.start_record)
    }

    /// Marks `now` as the start of the transaction.
    pub fn start_record(&mut self, now: Instant)
        ensures
            *final(self) == (TransactDurationRecorder { start_record: now, ..*old(self) }),
    {
        self.start_record = now;
    }

    /// Marks `now` as the start of the part that runs next.
    pub fn start_sub_record(&mut self, now: Instant)
        ensures
            *final(self) == (TransactDurationRecorder { sub_record: now, ..*old(self) }),
    {
        self.sub_record = now;
    }

    /// Attributes the cycles up to `now` to the verification beforehand.
    pub fn preverify_transaction_inner_record(&mut self, now: Instant)
        requires
            old(self).lap_fits(TransactPhase::PreverifyTransactionInner, now),
        ensures
            *final(self) == old(self).lapped(TransactPhase::PreverifyTransactionInner, now),
    {
        let (cycles, _) = self.record_sub_time(now);
        self.transact_time.preverify_transaction_inner =
            self.transact_time.preverify_transaction_inner + cycles;
    }

    /// Attributes the cycles up to `now` to what comes before the opcodes.
    pub fn before_execute_record(&mut self, now: Instant)
        requires
            old(self).lap_fits(TransactPhase::BeforeExecute, now),
        ensures
            *final(self) == old(self).lapped(TransactPhase::BeforeExecute, now),
    {
        let (cycles, _) = self.record_sub_time(now);
        self.transact_time.transact_preverified_inner.before_execute =
            self.transact_time.transact_preverified_inner.before_execute + cycles;
    }

    /// Attributes the cycles up to `now` to the execution of the opcodes.
    pub fn execute_record(&mut self, now: Instant)
        requires
            old(self).lap_fits(TransactPhase::Execute, now),
        ensures
            *final(self) == old(self).lapped(TransactPhase::Execute, now),
    {
        let (cycles, _) = self.record_sub_time(now);
        self.transact_time.transact_preverified_inner.execute =
            self.transact_time.transact_preverified_inner.execute + cycles;
    }

    /// Attributes the cycles up to `now` to what comes after the opcodes.
    pub fn after_execute_record(&mut self, now: Instant)
        requires
            old(self).lap_fits(TransactPhase::AfterExecute, now),
        ensures
            *final(self) == old(self).lapped(TransactPhase::AfterExecute, now),
    {
        let (cycles, _) = self.record_sub_time(now);
        self.transact_time.transact_preverified_inner.after_execute =
            self.transact_time.transact_preverified_inner.after_execute + cycles;
    }

    /// Attributes the cycles up to `now` to the end handler, and adds the
    /// cycles since the start of the transaction to the total.
    pub fn handler_end_record(&mut self, now: Instant)
        requires
            old(self).lap_fits(TransactPhase::HandleEnd, now),
            old(self).total_fits(now),
        ensures
            *final(self) == old(self).lapped(TransactPhase::HandleEnd, now).totalled(now),
    {
        let (cycles, now) = self.record_sub_time(now);
        self.transact_time.handle_end = self.transact_time.handle_end + cycles;
        self.record_total_time(now);
    }

    /// Adds the cycles from the start of the transaction to `now` to the total.
    pub fn record_total_time(&mut self, now: Instant)
        requires
            old(self).total_fits(now),
        ensures
            *final(self) == old(self).totalled(now),
    {
        let cycles: u64 = now.cycles_since(self.start_record);
        self.transact_time.total = self.transact_time.total + cycles;
    }

    /// Ends the running part at `now` and starts the next: returns the cycles
    /// that the part took, and `now`.
    pub fn record_sub_time(&mut self, now: Instant) -> (r: (u64, Instant))
        ensures
            r.0 == old(self).lap(now),
            r.1 == now,
            *final(self) == (TransactDurationRecorder { sub_record: now, ..*old(self) }),
    {
        let cycles: u64 = now.cycles_since(self.sub_record);
        self.sub_record = now;
        (cycles, now)
    }

    /// Retrieves the times recorded; they are reset to zero by the retrieval.
    pub fn get_transact_time(&mut self) -> (time: TransactTime)
        ensures
            time == old(self).transact_time,
            *final(self) == (TransactDurationRecorder {
                transact_time: TransactTime::zero(),
                ..*old(self)
            }),
    {
        let time = self.transact_time;
        self.transact_time = TransactTime::default();
        time
    }
}

/// A part takes up exactly the cycles since the part before it ended: its
/// time grows by them, no other time changes, and the next part starts where
/// this one ended.
pub proof fn lemma_lap_accounts_once(r: TransactDurationRecorder, phase: TransactPhase, now: Instant)
    requires
        r.lap_fits(phase, now),
    ensures
        r.lapped(phase, now).phase_time(phase) == r.phase_time(phase) + r.lap(now),
        forall|other: TransactPhase|
            other != phase ==> r.lapped(phase, now).phase_time(other) == r.phase_time(other),
        r.lapped(phase, now).transact_time.parts() == r.transact_time.parts() + r.lap(now),
        r.lapped(phase, now).sub_record == now,
        r.lapped(phase, now).start_record == r.start_record,
        r.lapped(phase, now).transact_time.total == r.transact_time.total,
{
}

/// Three parts recorded one after the other, at instants that do not go
/// back, each take up the cycles between the end of the part before and
/// their own end, and together exactly the cycles of the whole span.
pub proof fn lemma_chained_phases_cover_span(
    r: TransactDurationRecorder,
    first: TransactPhase,
    second: TransactPhase,
    third: TransactPhase,
    t1: Instant,
    t2: Instant,
    t3: Instant,
)
    requires
        r.sub_record.cycles() <= t1.cycles() <= t2.cycles() <= t3.cycles(),
        r.transact_time.parts() + (t3.cycles() - r.sub_record.cycles()) <= u64::MAX,
    ensures
        ({
            let end = r.lapped(first, t1).lapped(second, t2).lapped(third, t3);
            &&& end.transact_time.parts() - r.transact_time.parts() == t3.cycles()
                - r.sub_record.cycles()
            &&& end.sub_record == t3
            &&& first != second && second != third && first != third ==> {
                &&& end.phase_time(first) - r.phase_time(first) == t1.cycles()
                    - r.sub_record.cycles()
                &&& end.phase_time(second) - r.phase_time(second) == t2.cycles() - t1.cycles()
                &&& end.phase_time(third) - r.phase_time(third) == t3.cycles() - t2.cycles()
            }
        }),
{
    let a = r.lapped(first, t1);
    lemma_lap_accounts_once(r, first, t1);
    let b = a.lapped(second, t2);
    lemma_lap_accounts_once(a, second, t2);
    lemma_lap_accounts_once(b, third, t3);
}

} // verus!
