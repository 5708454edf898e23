//! Cycle-level performance instrumentation for a transaction-execution
//! pipeline: a cycle clock, scoped phase recorders, overflow-checked
//! accumulators and a two-resolution latency histogram.
//!
//! Nothing here reads a clock or owns process-wide state: every operation
//! takes the recorder it works on and the timestamp it is to account for, so
//! that each effect is a function of its arguments and is stated as one.
pub mod dashboard;
pub mod metrics;
pub mod utils;
