//! Streaming anomaly detection for LLM telemetry: identifiers, rolling
//! windows, alert deduplication and the decision logic around them.
use vstd::prelude::*;

pub mod types;
pub mod window;
pub mod keyed;
pub mod clock;
pub mod deduplication;
pub mod baseline;
pub mod detection;
pub mod text;
pub mod api;
pub mod health;
pub mod alerting;
pub mod error;
pub mod query;
pub mod config;
pub mod storage;
pub mod ingestion;

verus! {
} // verus!
