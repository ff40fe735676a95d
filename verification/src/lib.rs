//! Opt-in telemetry for command-line tools.
//!
//! The library decides; it performs no input or output. It keeps the consent
//! record, runs the flow in which the record is loaded or made, checks the
//! credentials of the collectors and says what goes to them. Reading and writing
//! the store, asking the operator and talking to the collectors are left to the
//! program around it, which hands over what it has read as plain values.

pub mod config;
pub mod error;
pub mod flow;
pub mod keys;
pub mod telemetry;
pub mod text;
pub mod utils;

pub use config::TelemetryConfig;
pub use error::{TelemetryError, TelemetryResult};
pub use keys::TelemetryKeys;
pub use telemetry::Telemetry;
