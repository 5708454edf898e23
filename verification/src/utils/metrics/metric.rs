//! The recorder of the execution engine: one structure that holds every
//! measurement of a unit of work, the functions that the engine calls at its
//! measuring points, and the functions that retrieve what was measured.
//!
//! A retrieval hands out the record and leaves an empty one behind, so that
//! nothing is counted twice and the next unit of work starts from zero.
use super::instruction::InstructionMetricRecoder;
use super::transact::{TransactDurationRecorder, TransactPhase};
use super::types::{CacheDbRecord, CacheDbRecordView, Function, OpcodeRecord, TransactTime};
use crate::utils::time_utils::cycles::{saturate_u64, CycleClock};
use crate::utils::time_utils::instant::Instant;
use vstd::prelude::*;

verus! {

/// All the measurements of the execution engine.
#[derive(Debug, Clone, Copy)]
pub struct Metric {
    /// Measurements of instruction execution.
    pub instruction_record: InstructionMetricRecoder,
    /// Measurements of the cache.
    pub cachedb_record: CacheDbRecord,
    /// Measurements of the parts of a transaction.
    pub transact_record: TransactDurationRecorder,
}

impl Default for Metric {
    fn default() -> (r: Self)
        ensures
            r.instruction_record.is_reset(),
            r.cachedb_record@ == CacheDbRecordView::empty(),
            r.transact_record == (TransactDurationRecorder {
                start_record: Instant(0),
                sub_record: Instant(0),
                transact_time: TransactTime::zero(),
            }),
    {
        Metric {
            instruction_record: InstructionMetricRecoder::default(),
            cachedb_record: CacheDbRecord::default(),
            transact_record: TransactDurationRecorder::default(),
        }
    }
}

impl Metric {
    /// Nothing but the instruction recorder differs between `self` and `post`.
    pub open spec fn differs_in_instructions(self, post: Metric) -> bool {
        &&& post.cachedb_record == self.cachedb_record
        &&& post.transact_record == self.transact_record
    }

    /// Nothing but the cache record differs between `self` and `post`.
    pub open spec fn differs_in_cache(self, post: Metric) -> bool {
        &&& post.instruction_record == self.instruction_record
        &&& post.transact_record == self.transact_record
    }

    /// This recorder with another recorder of the parts of a transaction.
    pub open spec fn with_transact(self, transact_record: TransactDurationRecorder) -> Metric {
        Metric { transact_record, ..self }
    }
}

/// Starts to record the execution of opcodes at `now`.
pub fn start_record_op(metric: &mut Metric, now: Instant)
    requires
        old(metric).instruction_record.start_fits(now),
    ensures
        old(metric).instruction_record.start_record_gives(now, final(metric).instruction_record),
        old(metric).differs_in_instructions(*final(metric)),
{
    metric.instruction_record.start_record(now);
}

/// Announces the opcode that is about to run. A call-like opcode enters the
/// interpreter again, and the next start attributes the time so far to it.
pub fn record_before_op(metric: &mut Metric, opcode: u8)
    ensures
        final(metric).instruction_record == (InstructionMetricRecoder {
            pre_opcode: Some(opcode),
            ..old(metric).instruction_record
        }),
        old(metric).differs_in_instructions(*final(metric)),
{
    metric.instruction_record.record_before_op(opcode);
}

/// Records one execution of `opcode` that ended at `now`.
pub fn record_op(metric: &mut Metric, opcode: u8, now: Instant, clock: &CycleClock)
    requires
        old(metric).instruction_record.is_timing(),
        old(metric).instruction_record.op_fits(now, opcode, *clock),
    ensures
        old(metric).instruction_record.record_op_gives(
            opcode,
            now,
            *clock,
            final(metric).instruction_record,
        ),
        old(metric).differs_in_instructions(*final(metric)),
{
    metric.instruction_record.record_op(opcode, now, clock);
}

/// Records the gas that an execution of `opcode` used.
pub fn record_gas(metric: &mut Metric, opcode: u8, gas_used: u64)
    requires
        old(metric).instruction_record.gas_fits(opcode, gas_used),
    ensures
        old(metric).instruction_record.record_gas_gives(
            opcode,
            gas_used,
            final(metric).instruction_record,
        ),
        old(metric).differs_in_instructions(*final(metric)),
{
    metric.instruction_record.record_gas(opcode, gas_used);
}

/// Retrieves the record of opcode execution, which is reset by the retrieval.
pub fn get_op_record(metric: &mut Metric) -> (record: OpcodeRecord)
    ensures
        record == old(metric).instruction_record.record,
        final(metric).instruction_record.is_reset(),
        old(metric).differs_in_instructions(*final(metric)),
{
    metric.instruction_record.get_record()
}

/// Counts a cache hit in `function`.
pub fn hit_record(metric: &mut Metric, function: Function)
    requires
        old(metric).cachedb_record@.hits[function.slot()] < u64::MAX,
    ensures
        final(metric).cachedb_record@ == old(metric).cachedb_record@.hit(function),
        old(metric).differs_in_cache(*final(metric)),
{
    metric.cachedb_record.hit(function);
}

/// Counts a cache miss in `function` that cost `cycles` cycles.
pub fn miss_record(metric: &mut Metric, function: Function, cycles: u64, clock: &CycleClock)
    requires
        old(metric).cachedb_record@.miss_fits(
            function,
            cycles as nat,
            saturate_u64(clock.nanos(cycles as nat)) as nat,
        ),
    ensures
        final(metric).cachedb_record@ == old(metric).cachedb_record@.miss(
            function,
            cycles as nat,
            saturate_u64(clock.nanos(cycles as nat)) as nat,
        ),
        old(metric).differs_in_cache(*final(metric)),
{
    metric.cachedb_record.miss(function, cycles, clock);
}

/// Retrieves the record of the cache, which is reset by the retrieval.
pub fn get_cache_record(metric: &mut Metric) -> (record: CacheDbRecord)
    ensures
        record == old(metric).cachedb_record,
        final(metric).cachedb_record@ == CacheDbRecordView::empty(),
        old(metric).differs_in_cache(*final(metric)),
{
    let record = metric.cachedb_record;
    metric.cachedb_record = CacheDbRecord::default();
    record
}

/// Marks `now` as the start of a transaction.
pub fn transact_start_record(metric: &mut Metric, now: Instant)
    ensures
        *final(metric) == old(metric).with_transact(
            TransactDurationRecorder { start_record: now, ..old(metric).transact_record },
        ),
{
    metric.transact_record.start_record(now);
}

/// Marks `now` as the start of the part of a transaction that runs next.
pub fn transact_sub_record(metric: &mut Metric, now: Instant)
    ensures
        *final(metric) == old(metric).with_transact(
            TransactDurationRecorder { sub_record: now, ..old(metric).transact_record },
        ),
{
    metric.transact_record.start_sub_record(now);
}

/// Marks `now` as the start of a transaction and of its first part.
pub fn transact_record(metric: &mut Metric, now: Instant)
    ensures
        *final(metric) == old(metric).with_transact(
            TransactDurationRecorder {
                start_record: now,
                sub_record: now,
                ..old(metric).transact_record
            },
        ),
{
    transact_start_record(metric, now);
    transact_sub_record(metric, now);
}

/// Attributes the cycles up to `now` to the verification beforehand.
pub fn preverify_transaction_inner_record(metric: &mut Metric, now: Instant)
    requires
        old(metric).transact_record.lap_fits(TransactPhase::PreverifyTransactionInner, now),
    ensures
        *final(metric) == old(metric).with_transact(
            old(metric).transact_record.lapped(TransactPhase::PreverifyTransactionInner, now),
        ),
{
    metric.transact_record.preverify_transaction_inner_record(now);
}

/// Attributes the cycles up to `now` to what comes before the opcodes.
pub fn before_execute_record(metric: &mut Metric, now: Instant)
    requires
        old(metric).transact_record.lap_fits(TransactPhase::BeforeExecute, now),
    ensures
        *final(metric) == old(metric).with_transact(
            old(metric).transact_record.lapped(TransactPhase::BeforeExecute, now),
        ),
{
    metric.transact_record.before_execute_record(now);
}

/// Attributes the cycles up to `now` to the execution of the opcodes.
pub fn execute_record(metric: &mut Metric, now: Instant)
    requires
        old(metric).transact_record.lap_fits(TransactPhase::Execute, now),
    ensures
        *final(metric) == old(metric).with_transact(
            old(metric).transact_record.lapped(TransactPhase::Execute, now),
        ),
{
    metric.transact_record.execute_record(now);
}

/// Attributes the cycles up to `now` to what comes after the opcodes.
pub fn after_execute_record(metric: &mut Metric, now: Instant)
    requires
        old(metric).transact_record.lap_fits(TransactPhase::AfterExecute, now),
    ensures
        *final(metric) == old(metric).with_transact(
            old(metric).transact_record.lapped(TransactPhase::AfterExecute, now),
        ),
{
    metric.transact_record.after_execute_record(now);
}

/// Attributes the cycles up to `now` to the end handler, and adds the cycles
/// since the start of the transaction to the total.
pub fn handler_end_record(metric: &mut Metric, now: Instant)
    requires
        old(metric).transact_record.lap_fits(TransactPhase::HandleEnd, now),
        old(metric).transact_record.total_fits(now),
    ensures
        *final(metric) == old(metric).with_transact(
            old(metric).transact_record.lapped(TransactPhase::HandleEnd, now).totalled(now),
        ),
{
    metric.transact_record.handler_end_record(now);
}

/// Retrieves the times of the parts of a transaction, which are reset to
/// zero by the retrieval.
pub fn get_transact_time(metric: &mut Metric) -> (time: TransactTime)
    ensures
        time == old(metric).transact_record.transact_time,
        *final(metric) == old(metric).with_transact(
            TransactDurationRecorder {
                transact_time: TransactTime::zero(),
                ..old(metric).transact_record
            },
        ),
{
    metric.transact_record.get_transact_time()
}

} // verus!
