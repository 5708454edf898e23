//! The measuring points of the executor of transactions.
use crate::metrics::duration::{ExecutePhase, ExecuteTxsRecord};
use crate::metrics::metric::PerfMetric;
use crate::utils::metrics::metric::Metric;
use crate::utils::metrics::transact::TransactDurationRecorder;
use crate::utils::metrics::types::TransactTime;
use crate::utils::time_utils::instant::Instant;
use vstd::prelude::*;

verus! {

/// Marks `now` as the start of the execution of transactions.
pub fn start_execute_tx_record(metric: &mut PerfMetric, now: Instant)
    ensures
        *final(metric) == old(metric).with_execution(
            ExecuteTxsRecord { start_record: now, ..old(metric).duration_record.execution },
        ),
{
    metric.duration_record.execution.start_record(now);
}

/// Marks `now` as the start of the part that runs next.
pub fn start_execute_tx_sub_record(metric: &mut PerfMetric, now: Instant)
    ensures
        *final(metric) == old(metric).with_execution(
            ExecuteTxsRecord { sub_record: now, ..old(metric).duration_record.execution },
        ),
{
    metric.duration_record.execution.start_sub_record(now);
}

/// Attributes the cycles up to `now` to the transaction function, and takes
/// over what the engine measured of its parts: the times are retrieved from
/// `revm`, where they are reset, and added to those recorded so far.
pub fn transact_record(metric: &mut PerfMetric, revm: &mut Metric, now: Instant)
    requires
        old(metric).duration_record.execution.lap_fits(ExecutePhase::Transact, now),
        old(metric).duration_record.execution.revm_transact.update_fits(
            old(revm).transact_record.transact_time,
        ),
    ensures
        *final(metric) == old(metric).with_execution(
            ExecuteTxsRecord {
                revm_transact: old(metric).duration_record.execution.revm_transact.updated(
                    old(revm).transact_record.transact_time,
                ),
                ..old(metric).duration_record.execution.lapped(ExecutePhase::Transact, now)
            },
        ),
        *final(revm) == old(revm).with_transact(
            TransactDurationRecorder {
                transact_time: TransactTime::zero(),
                ..old(revm).transact_record
            },
        ),
{
    metric.duration_record.execution.transact_record(revm, now);
}

/// Attributes the cycles up to `now` to committing changes.
pub fn commit_changes_record(metric: &mut PerfMetric, now: Instant)
    requires
        old(metric).duration_record.execution.lap_fits(ExecutePhase::CommitChanges, now),
    ensures
        *final(metric) == old(metric).with_execution(
            old(metric).duration_record.execution.lapped(ExecutePhase::CommitChanges, now),
        ),
{
    let _ = metric.duration_record.execution.commit_changes_record(now);
}

/// Attributes the cycles up to `now` to adding a receipt.
pub fn add_receipt_record(metric: &mut PerfMetric, now: Instant)
    requires
        old(metric).duration_record.execution.lap_fits(ExecutePhase::AddReceipt, now),
    ensures
        *final(metric) == old(metric).with_execution(
            old(metric).duration_record.execution.lapped(ExecutePhase::AddReceipt, now),
        ),
{
    let _ = metric.duration_record.execution.add_receipt_record(now);
}

/// Attributes the cycles up to `now` to applying the state change after execution.
pub fn apply_post_execution_state_change_record(metric: &mut PerfMetric, now: Instant)
    requires
        old(metric).duration_record.execution.lap_fits(ExecutePhase::ApplyPostExecutionStateChange, now),
    ensures
        *final(metric) == old(metric).with_execution(
            old(metric).duration_record.execution.lapped(ExecutePhase::ApplyPostExecutionStateChange, now),
        ),
{
    let _ = metric.duration_record.execution.apply_post_execution_state_change_record(now);
}

/// Attributes the cycles up to `now` to merging transactions.
pub fn merge_transactions_record(metric: &mut PerfMetric, now: Instant)
    requires
        old(metric).duration_record.execution.lap_fits(ExecutePhase::MergeTransactions, now),
    ensures
        *final(metric) == old(metric).with_execution(
            old(metric).duration_record.execution.lapped(ExecutePhase::MergeTransactions, now),
        ),
{
    let _ = metric.duration_record.execution.merge_transactions_record(now);
}

/// Attributes the cycles up to `now` to verifying receipts.
pub fn verify_receipt_record(metric: &mut PerfMetric, now: Instant)
    requires
        old(metric).duration_record.execution.lap_fits(ExecutePhase::VerifyReceipt, now),
    ensures
        *final(metric) == old(metric).with_execution(
            old(metric).duration_record.execution.lapped(ExecutePhase::VerifyReceipt, now),
        ),
{
    let _ = metric.duration_record.execution.verify_receipt_record(now);
}

/// Attributes the cycles up to `now` to saving receipts, and adds the cycles
/// since the start of the execution of transactions to its total.
pub fn save_receipts_record(metric: &mut PerfMetric, now: Instant)
    requires
        old(metric).duration_record.execution.lap_fits(ExecutePhase::SaveReceipts, now),
        old(metric).duration_record.execution.total_fits(now),
    ensures
        *final(metric) == old(metric).with_execution(
            old(metric).duration_record.execution.lapped(ExecutePhase::SaveReceipts, now).totalled(
                now,
            ),
        ),
{
    metric.duration_record.execution.save_receipts_record(now);
}

/// The record of the execution of transactions as it stands.
pub fn get_execute_tx_record(metric: &PerfMetric) -> (record: ExecuteTxsRecord)
    ensures
        record == metric.duration_record.execution,
{
    metric.duration_record.execution
}

/// The span of saving receipts, which follows the verification of receipts.
#[derive(Debug)]
pub struct VerifyAndSaveReceiptsRecord;

impl VerifyAndSaveReceiptsRecord {
    /// Ends the verification of receipts at `now`, committing its cycles, and
    /// starts the span of saving them.
    pub fn new(metric: &mut PerfMetric, now: Instant) -> (guard: Self)
        requires
            old(metric).duration_record.execution.lap_fits(ExecutePhase::VerifyReceipt, now),
        ensures
            *final(metric) == old(metric).with_execution(
                old(metric).duration_record.execution.lapped(ExecutePhase::VerifyReceipt, now),
            ),
    {
        verify_receipt_record(metric, now);
        VerifyAndSaveReceiptsRecord
    }

    /// Ends the span at `now`, commits its cycles and adds the cycles of the
    /// whole execution of transactions to its total.
    pub fn release(self, metric: &mut PerfMetric, now: Instant)
        requires
            old(metric).duration_record.execution.lap_fits(ExecutePhase::SaveReceipts, now),
            old(metric).duration_record.execution.total_fits(now),
        ensures
            *final(metric) == old(metric).with_execution(
                old(metric).duration_record.execution.lapped(
                    ExecutePhase::SaveReceipts,
                    now,
                ).totalled(now),
            ),
    {
        save_receipts_record(metric, now);
    }
}

/// The span of a `VerifyAndSaveReceiptsRecord`. With the clock standing at
/// `m`, a value made at `n` and released at `d`, where `m <= n <= d`, adds
/// `n - m` to the time of verifying receipts and `d - n` to the time of
/// saving them, `d - m` in all: every cycle from `m` to `d` is counted, and
/// none twice. The release adds the cycles since the start of the execution
/// of transactions to the total; no other time changes.
pub proof fn lemma_verify_and_save_span_covers_both_parts(
    r: ExecuteTxsRecord,
    made: Instant,
    released: Instant,
)
    requires
        r.sub_record.cycles() <= made.cycles() <= released.cycles(),
        r.lap_fits(ExecutePhase::VerifyReceipt, made),
        r.save_receipts + (released.cycles() - made.cycles()) <= u64::MAX,
        r.total_fits(released),
    ensures
        ({
            let held = r.lapped(ExecutePhase::VerifyReceipt, made);
            let end = held.lapped(ExecutePhase::SaveReceipts, released).totalled(released);
            &&& held.lap_fits(ExecutePhase::SaveReceipts, released)
            &&& held.lapped(ExecutePhase::SaveReceipts, released).total_fits(released)
            &&& held.verify_receipt == r.verify_receipt + (made.cycles() - r.sub_record.cycles())
            &&& end.verify_receipt == held.verify_receipt
            &&& end.save_receipts == r.save_receipts + (released.cycles() - made.cycles())
            &&& end.phases_total() == r.phases_total() + (released.cycles()
                - r.sub_record.cycles())
            &&& forall|other: ExecutePhase|
                other != ExecutePhase::VerifyReceipt && other != ExecutePhase::SaveReceipts
                    ==> end.phase_time(other) == r.phase_time(other)
            &&& end.total == r.total + released.elapsed_since(r.start_record)
            &&& end.sub_record == released
            &&& end.start_record == r.start_record
        }),
{
}

} // verus!
