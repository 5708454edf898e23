//! Building blocks shared by every recorder: time, allocation counters and
//! the records of the execution engine.
pub mod allocator;
pub mod metrics;
pub mod time_utils;

pub use metrics::Function;
pub use metrics::{HitRecord, MissRecord};
