//! Destinations for collected samples that come with the agent.

pub mod otlp;
pub mod stdout;
