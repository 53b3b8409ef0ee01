//! Processors that come with the agent.

pub mod name_filter;
