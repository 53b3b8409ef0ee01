//! Messages between agents and the control server.
//!
//! Authenticated config fetches carry HTTP headers; long-lived control sessions
//! carry tagged JSON messages. Header and field names are part of the wire
//! contract between the two sides.

use vstd::prelude::*;

use crate::config::bootstrap::optional_text;
use crate::config::runtime::strings;

verus! {

/// HTTP header carrying the persistent agent id.
pub const AGENT_ID_HEADER: &'static str = "x-talia-agent-id";

/// HTTP header carrying the optional per-agent config credential.
pub const AGENT_CONFIG_TOKEN_HEADER: &'static str = "x-talia-agent-config-token";

/// HTTP header carrying the active WebSocket config session id.
pub const CONFIG_SESSION_ID_HEADER: &'static str = "x-talia-config-session-id";

/// HTTP header carrying the bearer token.
pub const AUTHORIZATION_HEADER: &'static str = "authorization";

/// What stands before the token in the authorization header.
pub const BEARER_PREFIX: &'static str = "Bearer ";

/// Message sent by an agent to the control plane.
///
/// An agent first identifies itself with `Hello`, then reports that it is
/// alive, which config it applies and what it collects with `Heartbeat`.
#[derive(Debug, PartialEq, Eq)]
pub enum AgentControlMessage {
    /// Initial message sent when an agent opens a control WebSocket.
    Hello {
        /// Agent identifier.
        agent_id: String,
        /// Hostname reported by the agent.
        hostname: String,
        /// Agent binary version.
        agent_version: String,
        /// Host boot identifier, when available.
        boot_id: Option<String>,
    },
    /// Periodic liveness and applied-config report.
    Heartbeat {
        /// Agent identifier.
        agent_id: String,
        /// Hostname reported by the agent.
        hostname: String,
        /// Agent binary version.
        agent_version: String,
        /// Runtime config version currently applied by the agent.
        config_version: String,
        /// Collectors currently enabled by the agent.
        enabled_collectors: Vec<String>,
    },
}

/// What an [`AgentControlMessage`] says.
pub enum AgentControlMessageView {
    Hello {
        agent_id: Seq<char>,
        hostname: Seq<char>,
        agent_version: Seq<char>,
        boot_id: Option<Seq<char>>,
    },
    Heartbeat {
        agent_id: Seq<char>,
        hostname: Seq<char>,
        agent_version: Seq<char>,
        config_version: Seq<char>,
        enabled_collectors: Seq<Seq<char>>,
    },
}

impl View for AgentControlMessage {
    type V = AgentControlMessageView;

    open spec fn view(&self) -> AgentControlMessageView {
        match self {
            AgentControlMessage::Hello {
                agent_id,
                hostname,
                agent_version,
                boot_id,
            } => AgentControlMessageView::Hello {
                agent_id: agent_id@,
                hostname: hostname@,
                agent_version: agent_version@,
                boot_id: optional_text(*boot_id),
            },
            AgentControlMessage::Heartbeat {
                agent_id,
                hostname,
                agent_version,
                config_version,
                enabled_collectors,
            } => AgentControlMessageView::Heartbeat {
                agent_id: agent_id@,
                hostname: hostname@,
                agent_version: agent_version@,
                config_version: config_version@,
                enabled_collectors: strings(enabled_collectors@),
            },
        }
    }
}

/// Message sent by the control plane to an agent.
///
/// The server acknowledges a control session, and can later tell the agent to
/// fetch a newer runtime config.
#[derive(Debug, PartialEq, Eq)]
pub enum ServerControlMessage {
    /// Acknowledges an agent hello message and binds the connection to a config session.
    HelloAck {
        /// Control-plane server time in Unix seconds.
        server_time_unix_seconds: u64,
        /// Config session id assigned to the agent connection.
        config_session_id: String,
    },
    /// Notifies the agent that runtime config changed and should be refetched.
    ConfigChanged {
        /// New runtime config version available to fetch.
        version: String,
    },
}

/// What a [`ServerControlMessage`] says.
pub enum ServerControlMessageView {
    HelloAck { server_time_unix_seconds: u64, config_session_id: Seq<char> },
    ConfigChanged { version: Seq<char> },
}

impl View for ServerControlMessage {
    type V = ServerControlMessageView;

    open spec fn view(&self) -> ServerControlMessageView {
        match self {
            ServerControlMessage::HelloAck {
                server_time_unix_seconds,
                config_session_id,
            } => ServerControlMessageView::HelloAck {
                server_time_unix_seconds: *server_time_unix_seconds,
                config_session_id: config_session_id@,
            },
            ServerControlMessage::ConfigChanged {
                version,
            } => ServerControlMessageView::ConfigChanged { version: version@ },
        }
    }
}

} // verus!
