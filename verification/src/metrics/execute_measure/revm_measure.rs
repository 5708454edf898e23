//! The measuring point of the executor after each transaction.
use crate::metrics::metric::PerfMetric;
use crate::utils::metrics::metric::{get_op_record, Metric};
use vstd::prelude::*;

verus! {

/// After a transaction is executed: the statistics of its opcodes are
/// retrieved from `revm`, where they are reset, and added to those of all
/// transactions so far, counter by counter. A transaction that executed no
/// opcode leaves them as they are.
pub fn record_opcode(metric: &mut PerfMetric, revm: &mut Metric)
    requires
        old(metric).op_record@.update_fits(old(revm).instruction_record.record@),
    ensures
        final(metric).op_record@ == old(metric).op_record@.merge_add(
            old(revm).instruction_record.record@,
        ),
        final(metric).state == old(metric).state,
        final(metric).duration_record == old(metric).duration_record,
        final(metric).tps_gas_record == old(metric).tps_gas_record,
        final(metric).cachedb_record == old(metric).cachedb_record,
        final(metric).block_number == old(metric).block_number,
        final(revm).instruction_record.is_reset(),
        old(revm).differs_in_instructions(*final(revm)),
{
    let mut op_record = get_op_record(revm);
    if op_record.not_empty() {
        metric.op_record.update(&mut op_record);
    }
}

} // verus!
