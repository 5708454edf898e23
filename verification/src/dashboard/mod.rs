//! What the dashboard shows of the measurements: the numbers of each report,
//! worked out from the events in the order in which they arrive.
pub mod cache;
pub mod commons;
pub mod listener;
pub mod tps_gas;

pub use listener::DashboardListener;
