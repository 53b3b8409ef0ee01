//! The agent: what it starts with, how it talks to the control server, and how
//! long it waits.

pub mod session;
pub mod startup;
pub mod timing;
