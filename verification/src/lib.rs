//! Telemetry core for a long-running network service.
//!
//! The crate models and verifies the parts of a telemetry subsystem that
//! carry real design decisions:
//!
//! * logging settings with a validated verbosity level and a field-redaction
//!   contract ([`level`], [`settings`], [`redact`]);
//! * the write-once memory-profiler lifecycle ([`profiler`]);
//! * the telemetry HTTP server's route table with conflict detection and
//!   dispatch, and the strict metrics wire format ([`server`], [`metrics`]).
//!
//! Socket I/O, the async runtime, the log sink and the metrics registry are
//! external collaborators: the functions here take their inputs and hand
//! their outputs back as plain values.

pub mod level;
pub mod metrics;
pub mod profiler;
pub mod redact;
pub mod server;
pub mod settings;
pub mod strutil;
