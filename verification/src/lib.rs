//! Batching, framing and accounting logic of a low-latency logging pipeline.

pub mod aggregator;
pub mod aggregator_config;
pub mod batch;
pub mod batcher;
pub mod buffer;
pub mod clock;
pub mod collector;
pub mod compression;
pub mod config;
pub mod engine_config;
pub mod envparse;
pub mod error;
pub mod histogram;
pub mod host;
pub mod json;
pub mod level;
pub mod lifecycle;
pub mod logger;
pub mod metrics;
pub mod metrics_config;
pub mod record;
pub mod settings;
pub mod stats;
pub mod string_map;
pub mod trace;
pub mod transport;

pub use config::LoggerConfig;
pub use error::LoggingError;
pub use level::LogLevel;
pub use logger::{init, init_with_config, UltraLogger};
pub use record::{LogEntry, LogValue};
