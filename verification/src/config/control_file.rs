//! The configuration file of a control server.

use vstd::prelude::*;

use crate::config::bootstrap::{copy_optional, optional_text};
use crate::config::error::{ConfigError, ConfigErrorView};
use crate::config::overrides::{
    law_empty_override_changes_nothing, law_overrides_compose, merged, no_override, overridden,
    HostConfigOverride, HostConfigOverrideView,
};
use crate::config::runtime::{
    default_runtime, law_default_runtime_is_valid, law_validation_accepts_exactly_the_valid,
    runtime_fault, valid_runtime, AgentRuntimeConfig, AgentRuntimeConfigView,
};
use crate::config::version::{
    effective_config_version, effective_version, law_version_form,
    law_version_ignores_the_standing_version,
};
use crate::secret::secret_matches;
use crate::text::same_text;
use crate::text_map::TextMap;

verus! {

/// Agent enrollment record in the control-plane config.
///
/// Enrollment keeps an arbitrary connected agent from claiming any host name
/// when it fetches its runtime configuration.
#[derive(Debug, PartialEq, Eq)]
pub struct AgentEnrollment {
    /// Hostname this agent id is allowed to represent.
    pub hostname: String,
    /// Optional token required to fetch config for this agent.
    pub config_token: Option<String>,
}

/// What an [`AgentEnrollment`] says.
pub struct AgentEnrollmentView {
    pub hostname: Seq<char>,
    pub config_token: Option<Seq<char>>,
}

impl View for AgentEnrollment {
    type V = AgentEnrollmentView;

    open spec fn view(&self) -> AgentEnrollmentView {
        AgentEnrollmentView {
            hostname: self.hostname@,
            config_token: optional_text(self.config_token),
        }
    }
}

impl Clone for AgentEnrollment {
    fn clone(&self) -> (r: Self)
        ensures
            r@ == self@,
    {
        AgentEnrollment {
            hostname: self.hostname.clone(),
            config_token: copy_optional(&self.config_token),
        }
    }
}

impl Default for AgentEnrollment {
    fn default() -> (r: Self)
        ensures
            r.hostname@ == ""@,
            r.config_token is None,
    {
        AgentEnrollment { hostname: "".to_string(), config_token: None }
    }
}

/// Control-plane configuration: defaults, host overrides, and enrolled agents.
///
/// Defaults apply to every host, host overrides refine those of one host name,
/// and enrollment records bind persistent agent ids to the host names that they
/// may represent.
#[derive(Debug)]
pub struct ControlConfigFile {
    /// Defaults applied to every host runtime config.
    pub defaults: HostConfigOverride,
    /// Hostname-specific runtime config overrides.
    pub hosts: TextMap<HostConfigOverride>,
    /// Agent enrollment records keyed by agent id.
    pub agents: TextMap<AgentEnrollment>,
}

/// What a [`ControlConfigFile`] says.
#[verifier::ext_equal]
pub struct ControlConfigFileView {
    pub defaults: HostConfigOverrideView,
    pub hosts: Map<Seq<char>, HostConfigOverrideView>,
    pub agents: Map<Seq<char>, AgentEnrollmentView>,
}

/// The host overrides that a map holds.
pub open spec fn overrides_of(m: Map<Seq<char>, HostConfigOverride>) -> Map<
    Seq<char>,
    HostConfigOverrideView,
> {
    m.map_values(|v: HostConfigOverride| v@)
}

/// The enrollments that a map holds.
pub open spec fn enrollments_of(m: Map<Seq<char>, AgentEnrollment>) -> Map<
    Seq<char>,
    AgentEnrollmentView,
> {
    m.map_values(|v: AgentEnrollment| v@)
}

impl View for ControlConfigFile {
    type V = ControlConfigFileView;

    open spec fn view(&self) -> ControlConfigFileView {
        ControlConfigFileView {
            defaults: self.defaults@,
            hosts: overrides_of(self.hosts@),
            agents: enrollments_of(self.agents@),
        }
    }
}

/// The override that a control config holds for a host: the defaults, and over
/// them what is said of the host itself.
pub open spec fn host_override(f: ControlConfigFileView, hostname: Seq<char>)
    -> HostConfigOverrideView {
    if f.hosts.contains_key(hostname) {
        merged(f.defaults, f.hosts[hostname])
    } else {
        f.defaults
    }
}

/// The settings of a host, before they have a version of their own.
pub open spec fn host_settings(f: ControlConfigFileView, hostname: Seq<char>)
    -> AgentRuntimeConfigView {
    overridden(host_override(f, hostname), default_runtime())
}

/// The runtime config of a host, before it is validated.
pub open spec fn host_runtime(f: ControlConfigFileView, hostname: Seq<char>)
    -> AgentRuntimeConfigView {
    AgentRuntimeConfigView {
        version: effective_version(hostname, host_settings(f, hostname)),
        ..host_settings(f, hostname)
    }
}

/// Whether an agent id is enrolled for a host name.
pub open spec fn enrolled(f: ControlConfigFileView, agent_id: Seq<char>, hostname: Seq<char>)
    -> bool {
    f.agents.contains_key(agent_id) && f.agents[agent_id].hostname == hostname
}

/// Whether a token is the one that an agent is enrolled with.
pub open spec fn config_token_matches(
    f: ControlConfigFileView,
    agent_id: Seq<char>,
    config_token: Seq<char>,
) -> bool {
    &&& f.agents.contains_key(agent_id)
    &&& f.agents[agent_id].config_token matches Some(token)
    &&& secret_matches(token, config_token)
}

/// A config, or what is wrong with it.
pub open spec fn resolution(r: Result<AgentRuntimeConfig, ConfigError>) -> Result<
    AgentRuntimeConfigView,
    ConfigErrorView,
> {
    match r {
        Ok(c) => Ok(c@),
        Err(e) => Err(e@),
    }
}

/// The runtime config of a host, or what is wrong with it.
pub open spec fn resolved(f: ControlConfigFileView, hostname: Seq<char>) -> Result<
    AgentRuntimeConfigView,
    ConfigErrorView,
> {
    match runtime_fault(host_runtime(f, hostname)) {
        None => Ok(host_runtime(f, hostname)),
        Some(fault) => Err(fault),
    }
}

/// The control config that says nothing.
pub open spec fn empty_control() -> ControlConfigFileView {
    ControlConfigFileView { defaults: no_override(), hosts: Map::empty(), agents: Map::empty() }
}

impl ControlConfigFile {
    /// Builds the effective runtime config for a hostname.
    ///
    /// The config holds the defaults, the overrides of the host, and a stable
    /// version computed from them; it is validated in full.
    pub fn runtime_config_for(&self, hostname: &str) -> (r: Result<
        AgentRuntimeConfig,
        ConfigError,
    >)
        ensures
            resolution(r) == resolved(self@, hostname@),
    {
        let mut runtime = AgentRuntimeConfig::default();
        self.defaults.apply_to(&mut runtime);
        if let Some(host_config) = self.hosts.get(hostname) {
            proof {
                law_overrides_compose(self.defaults@, host_config@, default_runtime());
            }
            host_config.apply_to(&mut runtime);
        }
        assert(runtime@ == host_settings(self@, hostname@));
        runtime.version = effective_config_version(hostname, &runtime);
        assert(runtime@ == host_runtime(self@, hostname@));
        match runtime.validate() {
            Ok(_) => Ok(runtime),
            Err(e) => Err(e),
        }
    }

    /// Returns whether a host has an explicit override block.
    pub fn has_host_override(&self, hostname: &str) -> (r: bool)
        ensures
            r == self@.hosts.contains_key(hostname@),
    {
        self.hosts.contains_key(hostname)
    }

    /// Returns whether an agent id is enrolled for the provided hostname.
    pub fn agent_is_enrolled_for_hostname(&self, agent_id: &str, hostname: &str) -> (r: bool)
        ensures
            r == enrolled(self@, agent_id@, hostname@),
    {
        match self.agents.get(agent_id) {
            Some(agent) => same_text(agent.hostname.as_str(), hostname),
            None => false,
        }
    }

    /// Returns whether an agent's config token matches the enrolled token.
    pub fn agent_config_token_matches(&self, agent_id: &str, config_token: &str) -> (r: bool)
        ensures
            r == config_token_matches(self@, agent_id@, config_token@),
    {
        match self.agents.get(agent_id) {
            Some(agent) => match &agent.config_token {
                Some(token) => crate::secret::matches(token.as_str(), config_token),
                None => false,
            },
            None => false,
        }
    }
}

impl Default for ControlConfigFile {
    fn default() -> (r: Self)
        ensures
            r@ == empty_control(),
    {
        let r = ControlConfigFile {
            defaults: HostConfigOverride::default(),
            hosts: TextMap::new(),
            agents: TextMap::new(),
        };
        assert(r@.hosts =~= Map::<Seq<char>, HostConfigOverrideView>::empty());
        assert(r@.agents =~= Map::<Seq<char>, AgentEnrollmentView>::empty());
        r
    }
}

/// A config that a control server resolves for a host is valid, and carries the
/// version computed from its own settings.
pub proof fn law_resolved_config_is_valid(f: ControlConfigFileView, hostname: Seq<char>)
    requires
        resolved(f, hostname) is Ok,
    ensures
        valid_runtime(resolved(f, hostname)->Ok_0),
        resolved(f, hostname)->Ok_0.version == effective_version(
            hostname,
            resolved(f, hostname)->Ok_0,
        ),
{
    law_validation_accepts_exactly_the_valid(host_runtime(f, hostname));
    law_version_ignores_the_standing_version(
        hostname,
        host_runtime(f, hostname),
        host_settings(f, hostname),
    );
}

/// The settings of a host with an override of its own are the built-in ones,
/// the defaults applied to them, and then that override.
pub proof fn law_host_overrides_before_defaults(f: ControlConfigFileView, hostname: Seq<char>)
    requires
        f.hosts.contains_key(hostname),
    ensures
        host_settings(f, hostname) == overridden(
            f.hosts[hostname],
            overridden(f.defaults, default_runtime()),
        ),
{
    law_overrides_compose(f.defaults, f.hosts[hostname], default_runtime());
}

/// All hosts without an override of their own have the same settings.
pub proof fn law_hosts_without_override_share_settings(
    f: ControlConfigFileView,
    a: Seq<char>,
    b: Seq<char>,
)
    requires
        !f.hosts.contains_key(a),
        !f.hosts.contains_key(b),
    ensures
        host_settings(f, a) == host_settings(f, b),
        resolved(f, a) is Ok <==> resolved(f, b) is Ok,
        resolved(f, a) is Err ==> resolved(f, a) == resolved(f, b),
{
    law_version_form(a, host_settings(f, a));
    law_version_form(b, host_settings(f, b));
}

/// A control config that says nothing resolves, for every host, to the default
/// settings.
pub proof fn law_empty_config_resolves_to_defaults(hostname: Seq<char>)
    ensures
        resolved(empty_control(), hostname) == Ok::<AgentRuntimeConfigView, ConfigErrorView>(
            AgentRuntimeConfigView {
                version: effective_version(hostname, default_runtime()),
                ..default_runtime()
            },
        ),
{
    let f = empty_control();
    law_empty_override_changes_nothing(default_runtime());
    law_default_runtime_is_valid();
    law_version_form(hostname, default_runtime());
    law_validation_accepts_exactly_the_valid(host_runtime(f, hostname));
    law_validation_accepts_exactly_the_valid(default_runtime());
}

/// An agent id is enrolled for one host name at most.
pub proof fn law_enrolled_for_one_host(
    f: ControlConfigFileView,
    agent_id: Seq<char>,
    a: Seq<char>,
    b: Seq<char>,
)
    requires
        enrolled(f, agent_id, a),
        enrolled(f, agent_id, b),
    ensures
        a == b,
{
}

/// Whether a setting has the value that the host's own override gives; where
/// that gives none, the one of the defaults; and where neither gives one, the
/// built-in one.
pub open spec fn settled<T>(host: Option<T>, defaults: Option<T>, built_in: T, setting: T) -> bool {
    &&& host matches Some(v) ==> setting == v
    &&& host is None && defaults is Some ==> setting == defaults->0
    &&& host is None && defaults is None ==> setting == built_in
}

/// A resolved config has, in every setting, the value that is said of the host;
/// or else the value of the defaults; or else the built-in value. What is said
/// of other hosts does not matter.
pub proof fn law_each_setting_is_the_nearest_said(
    f: ControlConfigFileView,
    hostname: Seq<char>,
)
    requires
        resolved(f, hostname) is Ok,
    ensures
        ({
            let c = resolved(f, hostname)->Ok_0;
            let host = if f.hosts.contains_key(hostname) {
                f.hosts[hostname]
            } else {
                no_override()
            };
            &&& settled(
                host.agent.config_poll_interval_seconds,
                f.defaults.agent.config_poll_interval_seconds,
                900,
                c.agent.config_poll_interval_seconds,
            )
            &&& settled(
                host.agent.heartbeat_interval_seconds,
                f.defaults.agent.heartbeat_interval_seconds,
                60,
                c.agent.heartbeat_interval_seconds,
            )
            &&& settled(host.storage.enabled, f.defaults.storage.enabled, true, c.storage.enabled)
            &&& settled(
                host.storage.interval_seconds,
                f.defaults.storage.interval_seconds,
                60,
                c.storage.interval_seconds,
            )
            &&& settled(
                host.storage.mounts,
                f.defaults.storage.mounts,
                seq!["/"@],
                c.storage.mounts,
            )
            &&& settled(host.memory.enabled, f.defaults.memory.enabled, true, c.memory.enabled)
            &&& settled(
                host.memory.interval_seconds,
                f.defaults.memory.interval_seconds,
                60,
                c.memory.interval_seconds,
            )
            &&& settled(host.cpu.enabled, f.defaults.cpu.enabled, false, c.cpu.enabled)
            &&& settled(
                host.cpu.interval_seconds,
                f.defaults.cpu.interval_seconds,
                1,
                c.cpu.interval_seconds,
            )
            &&& settled(host.network.enabled, f.defaults.network.enabled, false, c.network.enabled)
            &&& settled(
                host.network.interval_seconds,
                f.defaults.network.interval_seconds,
                1,
                c.network.interval_seconds,
            )
            &&& settled(host.disk_io.enabled, f.defaults.disk_io.enabled, false, c.disk_io.enabled)
            &&& settled(
                host.disk_io.interval_seconds,
                f.defaults.disk_io.interval_seconds,
                1,
                c.disk_io.interval_seconds,
            )
        }),
{
}

/// A host whose settings are in order is served: its config resolves just where
/// each interval is positive, each mount path absolute, and a mount path given
/// where storage is collected.
pub proof fn law_config_resolves_just_where_settings_are_in_order(
    f: ControlConfigFileView,
    hostname: Seq<char>,
)
    ensures
        ({
            let c = host_settings(f, hostname);
            resolved(f, hostname) is Ok <==> {
                &&& c.agent.config_poll_interval_seconds > 0
                &&& c.agent.heartbeat_interval_seconds > 0
                &&& c.storage.interval_seconds > 0
                &&& c.storage.enabled ==> c.storage.mounts.len() > 0
                &&& forall|i: int|
                    0 <= i < c.storage.mounts.len() ==> (#[trigger] c.storage.mounts[i]).len() > 0
                        && c.storage.mounts[i][0] == '/'
                &&& c.memory.interval_seconds > 0
                &&& c.cpu.interval_seconds > 0
                &&& c.network.interval_seconds > 0
                &&& c.disk_io.interval_seconds > 0
            }
        }),
{
    law_version_form(hostname, host_settings(f, hostname));
    law_validation_accepts_exactly_the_valid(host_runtime(f, hostname));
}

/// An agent is enrolled for a host just where its record names that host, and a
/// token is its own just where its record has one that the token matches.
pub proof fn law_enrollment_is_by_record(
    f: ControlConfigFileView,
    agent_id: Seq<char>,
    hostname: Seq<char>,
    token: Seq<char>,
)
    ensures
        !f.agents.contains_key(agent_id) ==> !enrolled(f, agent_id, hostname)
            && !config_token_matches(f, agent_id, token),
        f.agents.contains_key(agent_id) ==> {
            let record = f.agents[agent_id];
            &&& enrolled(f, agent_id, hostname) <==> record.hostname == hostname
            &&& record.config_token is None ==> !config_token_matches(f, agent_id, token)
            &&& record.config_token matches Some(own) ==> (config_token_matches(
                f,
                agent_id,
                token,
            ) <==> secret_matches(own, token))
        },
{
}

} // verus!
