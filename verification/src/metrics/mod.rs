//! The measurements of the execution stage and what is told of them.
pub mod duration;
pub mod execute_measure;
pub mod metric;
pub mod tps_gas;

pub use duration::{ExecuteTxsRecord, ExecutionDurationRecord, WriteToDbRecord};
pub use metric::{MetricEvent, PerfMetric, RecordingState};
pub use tps_gas::{TpsAndGasMessage, TpsGasRecord};
