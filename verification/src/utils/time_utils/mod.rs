//! Time measurement: timestamps in cycles and their conversion to time.
pub mod cycles;
pub mod instant;
pub mod time_trace;

pub use cycles::{
    convert_cycles_to_duration, convert_cycles_to_ms, convert_cycles_to_ns, CycleClock,
};
