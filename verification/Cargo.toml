[package]
name = "core_engine"
version = "0.1.0"
edition = "2021"
publish = false

[dependencies]
arrow-ipc = "=54.3.1"
polars = { version = "=0.46.0", features = ["lazy", "csv", "parquet", "ipc", "ipc_streaming", "streaming"] }
serde = { version = "1", features = ["derive"] }
thiserror = "2"
tracing = "0.1"
tracing-subscriber = { version = "0.3", features = ["env-filter"] }

[dev-dependencies]
tempfile = "3"
