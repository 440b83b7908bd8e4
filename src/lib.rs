//! Per-request observability for an HTTP server: capture request metadata,
//! derive the outcome status, classify log severity, rate-limit error logs and
//! describe the single latency observation each request contributes.

pub mod record;
pub mod sampler;
pub mod outcome;

pub use outcome::{
    complete, log_action, outcome_status, severity_of, status_label, LogAction, Observation,
    Report, Severity, ERROR_STATUS_FLOOR, FALLBACK_STATUS,
};
pub use record::{header_text, Elapsed, HttpRequestLog, PeerAddr, RequestHead, NANOS_PER_SEC};
pub use sampler::{Sampler, DEFAULT_SAMPLE_INTERVAL_NANOS};
