//! Agent bootstrap, runtime, and control-plane configuration.
//!
//! An agent reads an [`bootstrap::AgentBootstrapConfig`] of its own when it
//! starts, then either applies the runtime config in it or fetches the one that
//! a control server holds for its host. The server resolves a
//! [`control_file::ControlConfigFile`] into the same
//! [`runtime::AgentRuntimeConfig`], so that one validation serves both sides.

pub mod bootstrap;
pub mod control_file;
pub mod error;
pub mod overrides;
pub mod runtime;
pub mod version;
