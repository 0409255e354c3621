//! A voice-audio relay core: per-speaker gain, pooled output buffers,
//! cache-backed display-name resolution, and backpressure reporting,
//! composed by a single-consumer relay actor.

pub mod actor;
pub mod client;
pub mod convert;
pub mod gain;
pub mod ingest;
pub mod metrics;
pub mod monitor;
pub mod parse;
pub mod pool;
pub mod profiler;
pub mod resolver;
pub mod types;
