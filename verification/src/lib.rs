//! The logic of Talia, a host monitoring agent with its control server.
//!
//! An agent collects samples of its host and exports them. A control server
//! knows which agents are enrolled, keeps track of those that are connected, and
//! hands each the configuration of its host.
//!
//! - [`config`], [`control`] and [`secret`] are shared by both sides.
//! - [`agent`], [`identity`] and [`runner`] are the agent; [`modules`] holds its
//!   collectors, [`pipeline`], [`processors`] and [`sinks`] what becomes of the
//!   samples.
//! - [`server`] and [`headers`] are the control server; [`protocol`] states what
//!   the two sides may rely on when they talk to each other.
//! - The other modules are the texts, numbers, paths, addresses and maps that all
//!   of it is made of.

pub mod address;
pub mod agent;
pub mod config;
pub mod control;
pub mod digits;
pub mod hash;
pub mod headers;
pub mod identity;
pub mod modules;
pub mod path;
pub mod pipeline;
pub mod processors;
pub mod protocol;
pub mod runner;
pub mod secret;
pub mod server;
pub mod sinks;
pub mod split;
pub mod text;
pub mod text_map;
pub mod time;
