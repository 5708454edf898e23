//! Scoped measurements: a value is made where a measured span begins and
//! released where it ends, and the release commits what the span cost to the
//! recorder.
//!
//! A release takes the value itself, so no span can be committed twice.
use super::instruction::InstructionMetricRecoder;
use super::metric::{
    after_execute_record, execute_record, handler_end_record, hit_record, miss_record,
    preverify_transaction_inner_record, record_before_op, record_op, transact_sub_record, Metric,
};
use super::transact::{TransactDurationRecorder, TransactPhase};
use super::types::Function;
use crate::utils::time_utils::cycles::{saturate_u64, CycleClock};
use crate::utils::time_utils::instant::Instant;
use vstd::prelude::*;

verus! {

/// An access that hit the cache.
#[derive(Debug)]
pub struct HitRecord {
    function: Function,
}

impl HitRecord {
    /// The function in which the cache was accessed.
    pub closed spec fn function(&self) -> Function {
        self.function
    }

    /// A hit in `function`, not yet counted.
    pub fn new(function: Function) -> (guard: HitRecord)
        ensures
            guard.function() == function,
    {
        HitRecord { function }
    }

    /// Counts the hit.
    pub fn release(self, metric: &mut Metric)
        requires
            old(metric).cachedb_record@.hits[self.function().slot()] < u64::MAX,
        ensures
            final(metric).cachedb_record@ == old(metric).cachedb_record@.hit(self.function()),
            old(metric).differs_in_cache(*final(metric)),
    {
        hit_record(metric, self.function);
    }
}

/// An access that missed the cache, from the moment the miss was found.
#[derive(Debug)]
pub struct MissRecord {
    function: Function,
    start_time: Instant,
}

impl MissRecord {
    /// The function in which the cache was accessed.
    pub closed spec fn function(&self) -> Function {
        self.function
    }

    /// When the miss was found.
    pub closed spec fn start_time(&self) -> Instant {
        self.start_time
    }

    /// The cycles that the miss has cost by `now`.
    pub open spec fn penalty(&self, now: Instant) -> u64 {
        now.elapsed_since(self.start_time())
    }

    /// A miss in `function` that was found at `now`.
    pub fn new(function: Function, now: Instant) -> (guard: MissRecord)
        ensures
            guard.function() == function,
            guard.start_time() == now,
    {
        MissRecord { function, start_time: now }
    }

    /// Counts the miss, with the cycles from its start to `now` as its penalty.
    pub fn release(self, metric: &mut Metric, now: Instant, clock: &CycleClock)
        requires
            old(metric).cachedb_record@.miss_fits(
                self.function(),
                self.penalty(now) as nat,
                saturate_u64(clock.nanos(self.penalty(now) as nat)) as nat,
            ),
        ensures
            final(metric).cachedb_record@ == old(metric).cachedb_record@.miss(
                self.function(),
                self.penalty(now) as nat,
                saturate_u64(clock.nanos(self.penalty(now) as nat)) as nat,
            ),
            old(metric).differs_in_cache(*final(metric)),
    {
        let cycles: u64 = now.cycles_since(self.start_time);
        miss_record(metric, self.function, cycles, clock);
    }
}

/// The span of verifying a transaction beforehand.
#[derive(Debug)]
pub struct PreverifyTransactionInnerRecord;

impl PreverifyTransactionInnerRecord {
    /// Starts the span at `now`.
    pub fn new(metric: &mut Metric, now: Instant) -> (guard: Self)
        ensures
            *final(metric) == old(metric).with_transact(
                TransactDurationRecorder { sub_record: now, ..old(metric).transact_record },
            ),
    {
        transact_sub_record(metric, now);
        PreverifyTransactionInnerRecord
    }

    /// Ends the span at `now` and commits its cycles.
    pub fn release(self, metric: &mut Metric, now: Instant)
        requires
            old(metric).transact_record.lap_fits(TransactPhase::PreverifyTransactionInner, now),
        ensures
            *final(metric) == old(metric).with_transact(
                old(metric).transact_record.lapped(TransactPhase::PreverifyTransactionInner, now),
            ),
    {
        preverify_transaction_inner_record(metric, now);
    }
}

/// The span of the end handler of a transaction.
#[derive(Debug)]
pub struct HandlerEndRecord;

impl HandlerEndRecord {
    /// Starts the span at `now`.
    pub fn new(metric: &mut Metric, now: Instant) -> (guard: Self)
        ensures
            *final(metric) == old(metric).with_transact(
                TransactDurationRecorder { sub_record: now, ..old(metric).transact_record },
            ),
    {
        transact_sub_record(metric, now);
        HandlerEndRecord
    }

    /// Ends the span at `now`, commits its cycles and adds the cycles of the
    /// whole transaction to the total.
    pub fn release(self, metric: &mut Metric, now: Instant)
        requires
            old(metric).transact_record.lap_fits(TransactPhase::HandleEnd, now),
            old(metric).transact_record.total_fits(now),
        ensures
            *final(metric) == old(metric).with_transact(
                old(metric).transact_record.lapped(TransactPhase::HandleEnd, now).totalled(now),
            ),
    {
        handler_end_record(metric, now);
    }
}

/// The span that follows the execution of the opcodes of a transaction.
#[derive(Debug)]
pub struct ExecuteEndRecord;

impl ExecuteEndRecord {
    /// Ends the execution of the opcodes at `now`, committing its cycles, and
    /// starts the span that follows.
    pub fn new(metric: &mut Metric, now: Instant) -> (guard: Self)
        requires
            old(metric).transact_record.lap_fits(TransactPhase::Execute, now),
        ensures
            *final(metric) == old(metric).with_transact(
                old(metric).transact_record.lapped(TransactPhase::Execute, now),
            ),
    {
        execute_record(metric, now);
        ExecuteEndRecord
    }

    /// Ends the span at `now` and commits its cycles.
    pub fn release(self, metric: &mut Metric, now: Instant)
        requires
            old(metric).transact_record.lap_fits(TransactPhase::AfterExecute, now),
        ensures
            *final(metric) == old(metric).with_transact(
                old(metric).transact_record.lapped(TransactPhase::AfterExecute, now),
            ),
    {
        after_execute_record(metric, now);
    }
}

/// The execution of one opcode.
#[derive(Debug)]
pub struct OpcodeExecuteRecord(u8);

impl OpcodeExecuteRecord {
    /// The opcode that is executed.
    pub closed spec fn opcode(&self) -> u8 {
        self.0
    }

    /// Announces `opcode` as the one that runs next.
    pub fn new(metric: &mut Metric, opcode: u8) -> (guard: Self)
        ensures
            guard.opcode() == opcode,
            final(metric).instruction_record == (InstructionMetricRecoder {
                pre_opcode: Some(opcode),
                ..old(metric).instruction_record
            }),
            old(metric).differs_in_instructions(*final(metric)),
    {
        record_before_op(metric, opcode);
        OpcodeExecuteRecord(opcode)
    }

    /// Records the execution of the opcode, which ended at `now`.
    pub fn release(self, metric: &mut Metric, now: Instant, clock: &CycleClock)
        requires
            old(metric).instruction_record.is_timing(),
            old(metric).instruction_record.op_fits(now, self.opcode(), *clock),
        ensures
            old(metric).instruction_record.record_op_gives(
                self.opcode(),
                now,
                *clock,
                final(metric).instruction_record,
            ),
            old(metric).differs_in_instructions(*final(metric)),
    {
        record_op(metric, self.0, now, clock);
    }
}

/// A span that starts the clock where it is made takes up exactly the
/// cycles from there to its release: the time of its part grows by them, no
/// other time changes, and the clock stands at the release. This is what
/// `PreverifyTransactionInnerRecord` and, but for the total, `HandlerEndRecord`
/// commit.
pub proof fn lemma_started_span_is_committed_once(
    r: TransactDurationRecorder,
    phase: TransactPhase,
    made: Instant,
    released: Instant,
)
    requires
        made.cycles() <= released.cycles(),
        r.phase_time(phase) + (released.cycles() - made.cycles()) <= u64::MAX,
    ensures
        ({
            let begun = TransactDurationRecorder { sub_record: made, ..r };
            let end = begun.lapped(phase, released);
            &&& begun.lap_fits(phase, released)
            &&& end.phase_time(phase) == r.phase_time(phase) + (released.cycles() - made.cycles())
            &&& forall|other: TransactPhase|
                other != phase ==> end.phase_time(other) == r.phase_time(other)
            &&& end.sub_record == released
            &&& end.start_record == r.start_record
            &&& end.transact_time.total == r.transact_time.total
        }),
{
}

/// The span of an `ExecuteEndRecord`. With the clock standing at `m`, a value
/// made at `n` and released at `d`, where `m <= n <= d`, adds `n - m` to the
/// time of executing the opcodes and `d - n` to the time after it, `d - m`
/// in all: every cycle from `m` to `d` is counted, and none twice. No other
/// time changes, and the clock stands at `d`.
pub proof fn lemma_execute_end_span_covers_both_parts(
    r: TransactDurationRecorder,
    made: Instant,
    released: Instant,
)
    requires
        r.sub_record.cycles() <= made.cycles() <= released.cycles(),
        r.lap_fits(TransactPhase::Execute, made),
        r.phase_time(TransactPhase::AfterExecute) + (released.cycles() - made.cycles())
            <= u64::MAX,
    ensures
        ({
            let held = r.lapped(TransactPhase::Execute, made);
            let end = held.lapped(TransactPhase::AfterExecute, released);
            &&& held.lap_fits(TransactPhase::AfterExecute, released)
            &&& held.phase_time(TransactPhase::Execute) == r.phase_time(TransactPhase::Execute)
                + (made.cycles() - r.sub_record.cycles())
            &&& held.sub_record == made
            &&& end.phase_time(TransactPhase::Execute) == held.phase_time(TransactPhase::Execute)
            &&& end.phase_time(TransactPhase::AfterExecute) == r.phase_time(
                TransactPhase::AfterExecute,
            ) + (released.cycles() - made.cycles())
            &&& end.phase_time(TransactPhase::Execute) + end.phase_time(
                TransactPhase::AfterExecute,
            ) == r.phase_time(TransactPhase::Execute) + r.phase_time(TransactPhase::AfterExecute)
                + (released.cycles() - r.sub_record.cycles())
            &&& end.transact_time.parts() == r.transact_time.parts() + (released.cycles()
                - r.sub_record.cycles())
            &&& forall|other: TransactPhase|
                other != TransactPhase::Execute && other != TransactPhase::AfterExecute
                    ==> end.phase_time(other) == r.phase_time(other)
            &&& end.sub_record == released
            &&& end.start_record == r.start_record
            &&& end.transact_time.total == r.transact_time.total
        }),
{
}

} // verus!
