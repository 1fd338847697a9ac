[package]
name = "logging_engine"
version = "0.1.0"
edition = "2021"
publish = false

[dependencies]
anyhow = "1"
async-trait = "0.1"
bytes = "1"
chrono = { version = "0.4", features = ["serde"] }
clap = { version = "4", features = ["derive"] }
crossbeam-channel = "0.5"
crossbeam-utils = "0.8"
dashmap = "*"
fastrand = "2"
flate2 = "1"
flume = "*"
lz4_flex = "*"
once_cell = "1"
parking_lot = "0.12"
serde = { version = "1", features = ["derive"] }
serde_json = "1"
simd-json = "*"
smallvec = "1"
snap = "1"
thiserror = "*"
tokio = { version = "1", features = ["rt-multi-thread", "macros", "time", "sync", "signal", "fs", "io-util", "io-std"] }
tracing = "0.1"
uuid = { version = "1", features = ["v4", "serde"] }
zstd = "*"
