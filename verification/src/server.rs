//! The control server: who may ask, which agents are connected, and which
//! configuration each of them is given.

pub mod registry;
pub mod reload;
pub mod service;
pub mod tokens;
