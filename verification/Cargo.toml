[package]
name = "perf_metrics"
version = "0.1.0"
edition = "2021"
publish = false

[dependencies]
allocator-api2 = "0.2"
ctor = "0.2"
serde = { version = "1", features = ["derive"] }
serde_arrays = "0.1"
tokio = { version = "1", default-features = false, features = ["sync"] }
