//! The neutral data model of telemetry, and the traits of what takes part in
//! collecting it.
//!
//! Providers produce samples without knowing where these end up; sinks consume
//! samples without knowing which provider produced them.

pub mod processor;
pub mod provider;
pub mod sample;
pub mod sink;
