//! The measuring points of the execution stage itself, in the order in
//! which a block passes them. Those that tell something return the events to
//! be sent, in the order in which they are to be sent.
use crate::metrics::duration::ExecutionDurationRecord;
use crate::metrics::metric::{MetricEvent, PerfMetric, RecordingState};
use crate::metrics::tps_gas::{TpsAndGasMessage, TpsGasRecord};
use crate::utils::metrics::metric::{get_cache_record, Metric};
use crate::utils::metrics::types::{CacheDbRecord, CacheDbRecordView, OpcodeRecord, OpcodeRecordView};
use crate::utils::time_utils::instant::Instant;
use vstd::prelude::*;

verus! {

/// Starts a unit of work at `now`: the recorder is recording from here on.
pub fn start_record(metric: &mut PerfMetric, now: Instant)
    ensures
        *final(metric) == (PerfMetric {
            state: RecordingState::Recording,
            ..old(metric).with_duration(
                ExecutionDurationRecord { total_recorder: now, ..old(metric).duration_record },
            )
        }),
{
    metric.duration_record.start_total_record(now);
    metric.state = RecordingState::Recording;
}

/// Before the loop over the blocks: the measurement of transactions and gas
/// is switched on.
pub fn record_before_loop(metric: &PerfMetric) -> (event: MetricEvent)
    ensures
        event == metric.switch_event(true),
{
    MetricEvent::BlockTpsAndGas {
        block_number: metric.block_number,
        record: TpsAndGasMessage::Switch(true),
    }
}

/// Before the total difficulty is fetched: block `block_number` is the one
/// in flight from here on, and the part that runs next starts at `now`.
pub fn record_before_td(metric: &mut PerfMetric, block_number: u64, now: Instant)
    ensures
        *final(metric) == (PerfMetric {
            block_number,
            ..old(metric).with_duration(
                ExecutionDurationRecord { time_recorder: now, ..old(metric).duration_record },
            )
        }),
{
    metric.duration_record.start_time_record(now);
    metric.block_number = block_number;
}

/// After the total difficulty is fetched: the cycles of the running part up
/// to `now` go to it, and the next part starts at `now`.
pub fn record_after_td(metric: &mut PerfMetric, now: Instant)
    requires
        old(metric).duration_record.block_td_fits(now),
    ensures
        *final(metric) == old(metric).with_duration(
            ExecutionDurationRecord {
                block_td: (old(metric).duration_record.block_td + old(metric).duration_record.lap(
                    now,
                )) as u64,
                time_recorder: now,
                ..old(metric).duration_record
            },
        ),
{
    metric.duration_record.add_block_td_duration(now);
    metric.duration_record.start_time_record(now);
}

/// After the block is fetched with its senders: the cycles of the running
/// part up to `now` go to it, and the next part starts at `now`.
pub fn record_after_block_with_senders(metric: &mut PerfMetric, now: Instant)
    requires
        old(metric).duration_record.block_with_senders_fits(now),
    ensures
        *final(metric) == old(metric).with_duration(
            ExecutionDurationRecord {
                block_with_senders: (old(metric).duration_record.block_with_senders + old(
                    metric,
                ).duration_record.lap(now)) as u64,
                time_recorder: now,
                ..old(metric).duration_record
            },
        ),
{
    metric.duration_record.add_block_with_senders_duration(now);
    metric.duration_record.start_time_record(now);
}

/// After the transactions and the gas of block `block_number` are known:
/// they are counted, and the counts so far are told.
pub fn record_after_get_tps(metric: &mut PerfMetric, block_number: u64, txs: u64, gas: u64) -> (event:
    MetricEvent)
    requires
        old(metric).tps_gas_record.record_fits(txs as u128, gas as u128),
    ensures
        *final(metric) == (PerfMetric {
            tps_gas_record: TpsGasRecord {
                block_number,
                txs: (old(metric).tps_gas_record.txs + txs) as u128,
                gas: (old(metric).tps_gas_record.gas + gas) as u128,
            },
            ..*old(metric)
        }),
        event == final(metric).tps_gas_event(),
{
    metric.tps_gas_record.record(block_number, txs as u128, gas as u128);
    MetricEvent::BlockTpsAndGas {
        block_number: metric.block_number,
        record: TpsAndGasMessage::Record(metric.tps_gas_record),
    }
}

/// After the output state is taken: the measurement of transactions and gas
/// is switched off, and the part that runs next starts at `now`.
pub fn record_after_take_output_state(metric: &mut PerfMetric, now: Instant) -> (event: MetricEvent)
    ensures
        *final(metric) == old(metric).with_duration(
            ExecutionDurationRecord { time_recorder: now, ..old(metric).duration_record },
        ),
        event == old(metric).switch_event(false),
{
    let event = MetricEvent::BlockTpsAndGas {
        block_number: metric.block_number,
        record: TpsAndGasMessage::Switch(false),
    };
    metric.duration_record.start_time_record(now);
    event
}

/// At the end of a unit of work. The cycles since its start are added to the
/// total of the stage, and the cache record of the engine is retrieved from
/// `revm`, where it is reset, and added to that of the stage. Three events
/// are to be sent, in this order: the time of each part of the stage, the
/// statistics of the cache with `cachedb_size` as its size, and the
/// statistics of opcode execution. What the events tell is then reset, so
/// that the next unit of work starts from zero, and the recorder is
/// finalized; the counts of transactions and gas and the number of the block
/// are kept.
pub fn record_at_end(
    metric: &mut PerfMetric,
    revm: &mut Metric,
    now: Instant,
    cachedb_size: usize,
) -> (events: Vec<MetricEvent>)
    requires
        old(metric).duration_record.total_fits(now),
        old(metric).cachedb_record@.merge_fits(old(revm).cachedb_record@),
    ensures
        events@.len() == 3,
        events@[0] == (MetricEvent::ExecutionStageTime {
            block_number: old(metric).block_number,
            record: ExecutionDurationRecord {
                total: (old(metric).duration_record.total + old(metric).duration_record.span(
                    now,
                )) as u64,
                ..old(metric).duration_record
            },
        }),
        events@[1] matches MetricEvent::CacheDbInfo { block_number, size, record }
            && block_number == old(metric).block_number && size == cachedb_size && record@ == old(
            metric,
        ).cachedb_record@.merge(old(revm).cachedb_record@),
        events@[2] == (MetricEvent::OpcodeInfo {
            block_number: old(metric).block_number,
            record: old(metric).op_record,
        }),
        final(metric).state == RecordingState::Finalized,
        final(metric).duration_record == ExecutionDurationRecord::zero(),
        final(metric).cachedb_record@ == CacheDbRecordView::empty(),
        final(metric).op_record@ == OpcodeRecordView::empty(),
        final(metric).tps_gas_record == old(metric).tps_gas_record,
        final(metric).block_number == old(metric).block_number,
        final(revm).cachedb_record@ == CacheDbRecordView::empty(),
        old(revm).differs_in_cache(*final(revm)),
{
    let mut events: Vec<MetricEvent> = Vec::new();
    metric.duration_record.add_total_duration(now);
    events.push(
        MetricEvent::ExecutionStageTime {
            block_number: metric.block_number,
            record: metric.duration_record,
        },
    );

    let cachedb_record = get_cache_record(revm);
    metric.cachedb_record.update(&cachedb_record);
    events.push(
        MetricEvent::CacheDbInfo {
            block_number: metric.block_number,
            size: cachedb_size,
            record: metric.cachedb_record,
        },
    );

    events.push(
        MetricEvent::OpcodeInfo { block_number: metric.block_number, record: metric.op_record },
    );

    metric.duration_record = ExecutionDurationRecord::default();
    metric.cachedb_record = CacheDbRecord::default();
    metric.op_record = OpcodeRecord::default();
    metric.state = RecordingState::Finalized;
    events
}

} // verus!
