//! Scheduling and packaging core of a telemetry SDK.
//!
//! Two subsystems live here: the metrics-ping scheduler (a date-arithmetic
//! decision procedure plus the decision table of its cancellable background
//! loop) and the ping request builder (a validated, compression-aware
//! request assembler). Counter metrics and the labeled-metric interface are
//! thin glue over an external key/value metric store, modeled here as plain
//! values.

pub mod counter;
pub mod labeled;
pub mod request;
pub mod scheduler;
pub mod text;
pub mod time;
