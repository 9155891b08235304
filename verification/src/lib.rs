//! A verified mapping engine for exporting instrumentation metrics to a
//! StatsD-compatible agent.
//!
//! The crate turns typed metric events (counter increments, gauge sets,
//! histogram records) into fully formatted StatsD wire-protocol lines of the
//! shape `name:value|type|#k1:v1,k2:v2`. It covers the label-driven histogram
//! classification (histogram / distribution / timer), the seconds-to-
//! milliseconds timer conversion, name prefixing, and tag formatting, all with
//! machine-checked contracts. Delivery of the finished lines (UDP sockets,
//! buffering, queueing) is the caller's transport concern and stays outside
//! this crate.

pub mod builder;
pub mod recorder;
pub mod types;
pub mod wire;

pub use builder::{StatsdBuilder, StatsdError, TransportConfig};
pub use recorder::{Handle, MetricEvent, MetricKey, StatsdRecorder};
pub use types::{HistogramType, InvalidOperationOutcome, InvalidOperationsAction, Label};
pub use wire::{Decimal, Histogram, MetricType, MetricValue, Submission};
