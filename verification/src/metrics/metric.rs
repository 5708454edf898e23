//! The recorder of the execution stage: one structure that holds every
//! measurement of the stage for the block in flight, and the events by which
//! the measurements are told.
use super::duration::{ExecuteTxsRecord, ExecutionDurationRecord, WriteToDbRecord};
use super::tps_gas::{TpsAndGasMessage, TpsGasRecord};
use crate::utils::metrics::types::{CacheDbRecord, CacheDbRecordView, OpcodeRecord, OpcodeRecordView};
use vstd::prelude::*;

verus! {

/// What is told of the measurements: one event per completed measurement,
/// each with the number of the block it belongs to.
#[allow(inconsistent_fields)]
#[derive(Clone, Copy, Debug, PartialEq, Eq)]
pub enum MetricEvent {
    /// The time of each part of the execution stage.
    ExecutionStageTime {
        /// The block in flight.
        block_number: u64,
        /// The overhead recorded.
        record: ExecutionDurationRecord,
    },
    /// The transactions and the gas of a block.
    BlockTpsAndGas {
        /// The block in flight.
        block_number: u64,
        /// The counts, or the switch of the measurement.
        record: TpsAndGasMessage,
    },
    /// The statistics of opcode execution.
    OpcodeInfo {
        /// The block in flight.
        block_number: u64,
        /// The statistics recorded.
        record: OpcodeRecord,
    },
    /// The statistics of the cache.
    CacheDbInfo {
        /// The block in flight.
        block_number: u64,
        /// The size of the cache.
        size: usize,
        /// The statistics recorded.
        record: CacheDbRecord,
    },
}

/// Where the recorder stands in a unit of work.
#[derive(Debug, Clone, Copy, PartialEq, Eq)]
pub enum RecordingState {
    /// No unit of work has started.
    Idle,
    /// A unit of work has started and is measured.
    Recording,
    /// The unit of work has ended: its measurements were told and reset.
    Finalized,
}

/// Every measurement of the execution stage for the unit of work in flight.
#[derive(Debug, Clone, Copy)]
pub struct PerfMetric {
    /// Where the recorder stands in the unit of work.
    pub state: RecordingState,
    /// The time of each function of the execution stage.
    pub duration_record: ExecutionDurationRecord,
    /// Transactions and gas.
    pub tps_gas_record: TpsGasRecord,
    /// Cache hits, misses and penalties.
    pub cachedb_record: CacheDbRecord,
    /// Opcode execution, over the transactions so far.
    pub op_record: OpcodeRecord,
    /// The number of the block in flight.
    pub block_number: u64,
}

impl Default for PerfMetric {
    fn default() -> (r: Self)
        ensures
            r.state == RecordingState::Idle,
            r.duration_record == ExecutionDurationRecord::zero(),
            r.tps_gas_record == (TpsGasRecord { block_number: 0, txs: 0, gas: 0 }),
            r.cachedb_record@ == CacheDbRecordView::empty(),
            r.op_record@ == OpcodeRecordView::empty(),
            r.block_number == 0,
    {
        PerfMetric {
            state: RecordingState::Idle,
            duration_record: ExecutionDurationRecord::default(),
            tps_gas_record: TpsGasRecord::default(),
            cachedb_record: CacheDbRecord::default(),
            op_record: OpcodeRecord::default(),
            block_number: 0,
        }
    }
}

impl PerfMetric {
    /// This recorder with another record of the stage.
    pub open spec fn with_duration(self, duration_record: ExecutionDurationRecord) -> PerfMetric {
        PerfMetric { duration_record, ..self }
    }

    /// This recorder with another record of the execution of transactions.
    pub open spec fn with_execution(self, execution: ExecuteTxsRecord) -> PerfMetric {
        PerfMetric {
            duration_record: ExecutionDurationRecord { execution, ..self.duration_record },
            ..self
        }
    }

    /// This recorder with another record of the writing to the database.
    pub open spec fn with_write(self, write_to_db: WriteToDbRecord) -> PerfMetric {
        PerfMetric {
            duration_record: ExecutionDurationRecord { write_to_db, ..self.duration_record },
            ..self
        }
    }

    /// The event that tells the switch of the measurement of transactions
    /// and gas.
    pub open spec fn switch_event(self, on: bool) -> MetricEvent {
        MetricEvent::BlockTpsAndGas {
            block_number: self.block_number,
            record: TpsAndGasMessage::Switch(on),
        }
    }

    /// The event that tells the counts of transactions and gas.
    pub open spec fn tps_gas_event(self) -> MetricEvent {
        MetricEvent::BlockTpsAndGas {
            block_number: self.block_number,
            record: TpsAndGasMessage::Record(self.tps_gas_record),
        }
    }
}

} // verus!
