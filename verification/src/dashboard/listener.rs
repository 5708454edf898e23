//! The listener of the dashboard: it takes the events in the order in which
//! they arrive and works out what is to be shown for each.
use super::cache::CacheStats;
use super::tps_gas::{TpsAndGasDisplayer, TpsGasReport};
use crate::metrics::duration::ExecutionDurationRecord;
use crate::metrics::metric::MetricEvent;
use crate::utils::metrics::distribution::TimeDistributionStats;
use crate::utils::metrics::types::OpcodeRecord;
use crate::utils::time_utils::cycles::CycleClock;
use crate::utils::time_utils::instant::Instant;
use vstd::prelude::*;

verus! {

/// What is to be shown for one event.
#[allow(inconsistent_fields)]
#[derive(Debug, Clone, Copy, PartialEq, Eq)]
pub enum Display {
    /// The breakdown of the time of the execution stage.
    ExecutionStageTime {
        /// The block of the event.
        block_number: u64,
        /// The record to break down.
        record: ExecutionDurationRecord,
    },
    /// The report of transactions and gas, if the event led to one.
    BlockTpsAndGas {
        /// The report.
        report: Option<TpsGasReport>,
    },
    /// The statistics of opcode execution.
    OpcodeInfo {
        /// The block of the event.
        block_number: u64,
        /// The record to show.
        record: OpcodeRecord,
    },
    /// The size of the cache and its statistics.
    CacheDbInfo {
        /// The block of the event.
        block_number: u64,
        /// The size of the cache.
        size: usize,
        /// The rows of the report.
        stats: CacheStats,
        /// The distribution of the penalties.
        penalty: TimeDistributionStats,
    },
}

/// The state that the listener keeps from one event to the next.
#[derive(Debug, Clone, Copy, PartialEq, Eq)]
pub struct DashboardListener {
    /// Follows the counts of transactions and gas.
    pub tps_gas_displayer: TpsAndGasDisplayer,
}

impl Default for DashboardListener {
    fn default() -> (r: Self)
        ensures
            r == DashboardListener::initial(),
    {
        DashboardListener { tps_gas_displayer: TpsAndGasDisplayer::default() }
    }
}

impl DashboardListener {
    /// The listener before the first event.
    pub open spec fn initial() -> Self {
        DashboardListener {
            tps_gas_displayer: TpsAndGasDisplayer {
                pre_txs: 0,
                pre_gas: 0,
                last_txs: 0,
                last_gas: 0,
                pre_instant: Instant(0),
            },
        }
    }

    /// A listener that has seen no event.
    pub fn new() -> (r: Self)
        ensures
            r == DashboardListener::initial(),
    {
        DashboardListener { tps_gas_displayer: TpsAndGasDisplayer::default() }
    }

    /// Whether `handle_event` can take `event` at `now`: a report of
    /// transactions and gas can be made where the event leads to one, and
    /// the totals of a cache record fit in a `u64`.
    pub open spec fn handle_fits(self, event: MetricEvent, now: Instant, clock: CycleClock) -> bool {
        match event {
            MetricEvent::BlockTpsAndGas { block_number, record } => self.tps_gas_displayer.print_fits(
                record,
                now,
                clock,
            ),
            MetricEvent::CacheDbInfo { block_number, size, record } => CacheStats::report_fits(
                record@,
            ),
            _ => true,
        }
    }

    /// Decides `handle_fits`.
    pub fn can_handle(&self, event: &MetricEvent, now: Instant, clock: &CycleClock) -> (r: bool)
        ensures
            r == self.handle_fits(*event, now, *clock),
    {
        match event {
            MetricEvent::BlockTpsAndGas { block_number, record } => self.tps_gas_displayer.can_print(
                *record,
                now,
                clock,
            ),
            MetricEvent::CacheDbInfo { block_number, size, record } => CacheStats::can_report(
                record,
            ),
            _ => true,
        }
    }

    /// Takes one event, which arrived at `now`, and returns what is to be
    /// shown for it. Only an event on transactions and gas changes the
    /// listener.
    pub fn handle_event(&mut self, event: MetricEvent, now: Instant, clock: &CycleClock) -> (display:
        Display)
        requires
            old(self).handle_fits(event, now, *clock),
        ensures
            event matches MetricEvent::ExecutionStageTime { block_number, record } ==> {
                &&& display == (Display::ExecutionStageTime { block_number, record })
                &&& *final(self) == *old(self)
            },
            event matches MetricEvent::OpcodeInfo { block_number, record } ==> {
                &&& display == (Display::OpcodeInfo { block_number, record })
                &&& *final(self) == *old(self)
            },
            event matches MetricEvent::CacheDbInfo { block_number, size, record } ==> {
                &&& display matches Display::CacheDbInfo {
                    block_number: shown_block,
                    size: shown_size,
                    stats,
                    penalty,
                }
                &&& shown_block == block_number
                &&& shown_size == size
                &&& penalty@ == record@.penalty.percentile
                &&& stats.reports(record@)
                &&& *final(self) == *old(self)
            },
            event matches MetricEvent::BlockTpsAndGas { block_number, record } ==> {
                &&& display matches Display::BlockTpsAndGas { report }
                &&& old(self).tps_gas_displayer.print_gives(
                    block_number,
                    record,
                    now,
                    *clock,
                    report,
                    final(self).tps_gas_displayer,
                )
            },
    {
        match event {
            MetricEvent::ExecutionStageTime { block_number, record } => Display::ExecutionStageTime {
                block_number,
                record,
            },
            MetricEvent::BlockTpsAndGas { block_number, record } => {
                let report = self.tps_gas_displayer.print(block_number, record, now, clock);
                Display::BlockTpsAndGas { report }
            },
            MetricEvent::OpcodeInfo { block_number, record } => Display::OpcodeInfo {
                block_number,
                record,
            },
            MetricEvent::CacheDbInfo { block_number, size, record } => {
                let stats = CacheStats::from_record(&record);
                let penalty = record.penalty_stats().percentile;
                Display::CacheDbInfo { block_number, size, stats, penalty }
            },
        }
    }
}

} // verus!
