//! What an agent starts with.

use vstd::prelude::*;

use crate::config::bootstrap::{
    bootstrap_fault, copy_optional, fallback_runtime, law_accepted_fallback_is_valid, optional_text,
    AgentBootstrapConfig, AgentBootstrapConfigView,
};
use crate::config::error::ConfigError;
use crate::config::runtime::{
    law_validation_accepts_exactly_the_valid, runtime_fault, valid_runtime, AgentRuntimeConfig,
    AgentRuntimeConfigView,
};
use crate::path::{join_path, path_in};
use crate::text::{blank_text, is_blank};

verus! {

/// The name of the file in the state directory that holds the last config that
/// was applied.
pub const LAST_KNOWN_CONFIG_FILE: &'static str = "last-config.json";

/// The bootstrap config with the secrets of the environment in place of its own,
/// where the environment holds any.
pub open spec fn with_secrets(
    b: AgentBootstrapConfigView,
    control_token: Option<Seq<char>>,
    agent_config_token: Option<Seq<char>>,
) -> AgentBootstrapConfigView {
    AgentBootstrapConfigView {
        control_token: if control_token is Some {
            control_token
        } else {
            b.control_token
        },
        agent_config_token: if agent_config_token is Some {
            agent_config_token
        } else {
            b.agent_config_token
        },
        ..b
    }
}

/// Puts the secrets of the environment in place of those of the config file.
pub fn apply_environment_secrets(
    bootstrap: &mut AgentBootstrapConfig,
    control_token: Option<String>,
    agent_config_token: Option<String>,
)
    ensures
        final(bootstrap)@ == with_secrets(
            old(bootstrap)@,
            optional_text(control_token),
            optional_text(agent_config_token),
        ),
{
    if let Some(token) = control_token {
        bootstrap.control_token = Some(token);
    }
    if let Some(token) = agent_config_token {
        bootstrap.agent_config_token = Some(token);
    }
}

/// Takes a bootstrap config in: with the secrets of the environment in place of
/// its own, it is validated.
pub fn accept_bootstrap(
    bootstrap: AgentBootstrapConfig,
    control_token: Option<String>,
    agent_config_token: Option<String>,
) -> (r: Result<AgentBootstrapConfig, ConfigError>)
    ensures
        match bootstrap_fault(bootstrap@) {
            None => r matches Ok(accepted) && accepted@ == with_secrets(
                bootstrap@,
                optional_text(control_token),
                optional_text(agent_config_token),
            ),
            Some(fault) => r matches Err(e) && e@ == fault,
        },
{
    let mut accepted = bootstrap;
    apply_environment_secrets(&mut accepted, control_token, agent_config_token);
    match accepted.validate() {
        Ok(_) => Ok(accepted),
        Err(e) => Err(e),
    }
}

/// How an agent reaches its control server.
#[derive(Debug)]
pub struct ControlClientConfig {
    /// HTTP endpoint.
    pub http_url: String,
    /// WebSocket endpoint.
    pub ws_url: String,
    /// Bearer token.
    pub token: String,
    /// Config credential of the agent, where it has one.
    pub agent_config_token: Option<String>,
}

/// What a [`ControlClientConfig`] says.
pub struct ControlClientConfigView {
    pub http_url: Seq<char>,
    pub ws_url: Seq<char>,
    pub token: Seq<char>,
    pub agent_config_token: Option<Seq<char>>,
}

impl View for ControlClientConfig {
    type V = ControlClientConfigView;

    open spec fn view(&self) -> ControlClientConfigView {
        ControlClientConfigView {
            http_url: self.http_url@,
            ws_url: self.ws_url@,
            token: self.token@,
            agent_config_token: optional_text(self.agent_config_token),
        }
    }
}

impl Clone for ControlClientConfig {
    fn clone(&self) -> (r: Self)
        ensures
            r@ == self@,
    {
        ControlClientConfig {
            http_url: self.http_url.clone(),
            ws_url: self.ws_url.clone(),
            token: self.token.clone(),
            agent_config_token: copy_optional(&self.agent_config_token),
        }
    }
}

/// How an agent reaches its control server, where it has a token that is not
/// blank.
pub open spec fn control_client(b: AgentBootstrapConfigView) -> Option<ControlClientConfigView> {
    match b.control_token {
        Some(token) => if is_blank(token) {
            None
        } else {
            Some(
                ControlClientConfigView {
                    http_url: b.control_http_url,
                    ws_url: b.control_ws_url,
                    token,
                    agent_config_token: b.agent_config_token,
                },
            )
        },
        None => None,
    }
}

/// Takes from a bootstrap config how to reach the control server. Without a
/// token the agent goes by its local config alone.
pub fn control_client_config(bootstrap: &AgentBootstrapConfig) -> (r: Option<ControlClientConfig>)
    ensures
        match r {
            Some(control) => control_client(bootstrap@) == Some(control@),
            None => control_client(bootstrap@) is None,
        },
{
    match &bootstrap.control_token {
        Some(token) => if blank_text(token.as_str()) {
            None
        } else {
            Some(
                ControlClientConfig {
                    http_url: bootstrap.control_http_url.clone(),
                    ws_url: bootstrap.control_ws_url.clone(),
                    token: token.clone(),
                    agent_config_token: copy_optional(&bootstrap.agent_config_token),
                },
            )
        },
        None => None,
    }
}

/// Where the last config that was applied is kept.
pub fn last_known_config_path(state_dir: &str) -> (r: String)
    ensures
        r@ == path_in(state_dir@, LAST_KNOWN_CONFIG_FILE@),
{
    join_path(state_dir, LAST_KNOWN_CONFIG_FILE)
}

/// The text of an optional runtime config.
pub open spec fn optional_runtime(c: Option<AgentRuntimeConfig>) -> Option<AgentRuntimeConfigView> {
    match c {
        Some(config) => Some(config@),
        None => None,
    }
}

/// The runtime config that an agent starts with: the last one it applied, where
/// that is kept and valid, and otherwise the one of its bootstrap config.
pub open spec fn initial_runtime(
    b: AgentBootstrapConfigView,
    last_known: Option<AgentRuntimeConfigView>,
) -> AgentRuntimeConfigView {
    match last_known {
        Some(config) => if runtime_fault(config) is None {
            config
        } else {
            fallback_runtime(b)
        },
        None => fallback_runtime(b),
    }
}

/// Chooses the runtime config that an agent starts with.
pub fn initial_runtime_config(
    bootstrap: &AgentBootstrapConfig,
    last_known: Option<AgentRuntimeConfig>,
) -> (r: AgentRuntimeConfig)
    ensures
        r@ == initial_runtime(bootstrap@, optional_runtime(last_known)),
{
    match last_known {
        Some(config) => match config.validate() {
            Ok(_) => config,
            Err(_) => bootstrap.fallback_runtime_config(),
        },
        None => bootstrap.fallback_runtime_config(),
    }
}

/// An agent whose bootstrap config was accepted starts with a valid runtime
/// config, whatever it finds in its state directory.
pub proof fn law_agent_starts_with_a_valid_config(
    b: AgentBootstrapConfigView,
    last_known: Option<AgentRuntimeConfigView>,
)
    requires
        bootstrap_fault(b) is None,
    ensures
        valid_runtime(initial_runtime(b, last_known)),
{
    law_accepted_fallback_is_valid(b);
    if last_known is Some {
        law_validation_accepts_exactly_the_valid(last_known->0);
    }
}

/// A valid config that was kept is the one that the agent starts with again.
pub proof fn law_last_known_config_survives_a_restart(
    b: AgentBootstrapConfigView,
    config: AgentRuntimeConfigView,
)
    requires
        valid_runtime(config),
    ensures
        initial_runtime(b, Some(config)) == config,
{
    law_validation_accepts_exactly_the_valid(config);
}

/// Secrets of the environment change nothing that is validated.
pub proof fn law_secrets_do_not_change_validation(
    b: AgentBootstrapConfigView,
    control_token: Option<Seq<char>>,
    agent_config_token: Option<Seq<char>>,
)
    ensures
        bootstrap_fault(with_secrets(b, control_token, agent_config_token)) == bootstrap_fault(b),
        fallback_runtime(with_secrets(b, control_token, agent_config_token)) == fallback_runtime(b),
{
}

/// A secret of the environment stands in place of that of the file, one for each;
/// where the environment has none that of the file stays, and nothing else
/// changes.
pub proof fn law_environment_secrets_come_first(
    b: AgentBootstrapConfigView,
    control_token: Option<Seq<char>>,
    agent_config_token: Option<Seq<char>>,
)
    ensures
        ({
            let r = with_secrets(b, control_token, agent_config_token);
            &&& control_token is Some ==> r.control_token == control_token
            &&& control_token is None ==> r.control_token == b.control_token
            &&& agent_config_token is Some ==> r.agent_config_token == agent_config_token
            &&& agent_config_token is None ==> r.agent_config_token == b.agent_config_token
            &&& r.control_http_url == b.control_http_url
            &&& r.control_ws_url == b.control_ws_url
            &&& r.allow_insecure_control_url == b.allow_insecure_control_url
            &&& r.otlp_endpoint == b.otlp_endpoint
            &&& r.state_dir == b.state_dir
        }),
{
}

/// An agent talks to a control server just where it has a token that is not blank,
/// and then with the addresses and the secrets of its own config.
pub proof fn law_control_needs_a_token(b: AgentBootstrapConfigView)
    ensures
        control_client(b) is Some <==> b.control_token is Some && !is_blank(b.control_token->0),
        control_client(b) matches Some(control) ==> {
            &&& control.http_url == b.control_http_url
            &&& control.ws_url == b.control_ws_url
            &&& Some(control.token) == b.control_token
            &&& control.agent_config_token == b.agent_config_token
        },
{
}

/// Without a last known config that may be applied, an agent starts with its own
/// settings.
pub proof fn law_agent_falls_back_to_its_own_settings(
    b: AgentBootstrapConfigView,
    last_known: Option<AgentRuntimeConfigView>,
)
    requires
        last_known is None || !valid_runtime(last_known->0),
    ensures
        initial_runtime(b, last_known) == fallback_runtime(b),
{
    if last_known is Some {
        law_validation_accepts_exactly_the_valid(last_known->0);
    }
}

} // verus!
