//! Loading and reloading of a control server's configuration.

use vstd::prelude::*;

use crate::config::control_file::{
    empty_control, law_empty_config_resolves_to_defaults,
    law_hosts_without_override_share_settings, resolved, ControlConfigFile, ControlConfigFileView,
};
use crate::config::error::{fault_message, ConfigError, ConfigErrorView};
use crate::config::overrides::HostConfigOverride;
use crate::config::version::{config_source_version, source_version};
use crate::control::{ServerControlMessage, ServerControlMessageView};
use crate::server::registry::AgentRegistry;
use crate::text_map::{lemma_entry, lemma_key, lists};

verus! {

/// A control config that was loaded, and the version of its source.
#[derive(Debug)]
pub struct LoadedControlConfig {
    /// Version of the source that the config was read from.
    pub source_version: String,
    /// The config itself.
    pub config: ControlConfigFile,
}

/// Which runtime config of a control config is not valid, and why.
#[derive(Debug)]
pub enum InvalidRuntime {
    /// The one of a host without override.
    Default(ConfigError),
    /// The one of a host.
    Host {
        /// The host.
        hostname: String,
        /// What is wrong.
        error: ConfigError,
    },
}

/// What an [`InvalidRuntime`] says.
pub enum InvalidRuntimeView {
    Default(ConfigErrorView),
    Host { hostname: Seq<char>, error: ConfigErrorView },
}

impl View for InvalidRuntime {
    type V = InvalidRuntimeView;

    open spec fn view(&self) -> InvalidRuntimeView {
        match self {
            InvalidRuntime::Default(error) => InvalidRuntimeView::Default(error@),
            InvalidRuntime::Host { hostname, error } => InvalidRuntimeView::Host {
                hostname: hostname@,
                error: error@,
            },
        }
    }
}

impl InvalidRuntime {
    /// The message of the error, for people.
    pub open spec fn text(&self) -> Seq<char> {
        match self@ {
            InvalidRuntimeView::Default(error) => "invalid default runtime config: "@
                + fault_message(error),
            InvalidRuntimeView::Host { hostname, error } => "invalid runtime config for host "@
                + hostname + ": "@ + fault_message(error),
        }
    }

    /// The message of the error, for people.
    pub fn message(&self) -> (r: String)
        ensures
            r@ == self.text(),
    {
        match self {
            InvalidRuntime::Default(error) => {
                let detail = error.message();
                "invalid default runtime config: ".to_string().concat(detail.as_str())
            },
            InvalidRuntime::Host { hostname, error } => {
                let detail = error.message();
                "invalid runtime config for host ".to_string().concat(hostname.as_str()).concat(
                    ": ",
                ).concat(detail.as_str())
            },
        }
    }
}

/// The first host of a list whose runtime config is not valid.
pub open spec fn first_invalid_host(f: ControlConfigFileView, hosts: Seq<Seq<char>>) -> Option<
    InvalidRuntimeView,
>
    decreases hosts.len(),
{
    if hosts.len() == 0 {
        None
    } else {
        match resolved(f, hosts[0]) {
            Err(error) => Some(InvalidRuntimeView::Host { hostname: hosts[0], error }),
            Ok(_) => first_invalid_host(f, hosts.skip(1)),
        }
    }
}

/// The first runtime config of a control config that is not valid: that of the
/// empty host name, or that of one of the hosts in turn.
pub open spec fn first_invalid(f: ControlConfigFileView, hosts: Seq<Seq<char>>) -> Option<
    InvalidRuntimeView,
> {
    match resolved(f, ""@) {
        Err(error) => Some(InvalidRuntimeView::Default(error)),
        Ok(_) => first_invalid_host(f, hosts),
    }
}

/// The host names that a control config has overrides for, in ascending order.
pub open spec fn host_names(config: ControlConfigFile) -> Seq<Seq<char>> {
    config.hosts.listing().map_values(
        |e: (Seq<char>, HostConfigOverride)| e.0,
    )
}

proof fn lemma_first_invalid_host(f: ControlConfigFileView, hosts: Seq<Seq<char>>)
    ensures
        first_invalid_host(f, hosts) is None <==> forall|i: int|
            0 <= i < hosts.len() ==> resolved(f, #[trigger] hosts[i]) is Ok,
    decreases hosts.len(),
{
    if hosts.len() > 0 {
        let rest = hosts.skip(1);
        lemma_first_invalid_host(f, rest);
        if first_invalid_host(f, hosts) is None {
            assert forall|i: int| 0 <= i < hosts.len() implies resolved(
                f,
                #[trigger] hosts[i],
            ) is Ok by {
                if i > 0 {
                    assert(hosts[i] == rest[i - 1]);
                }
            }
        } else if resolved(f, hosts[0]) is Ok {
            let i = choose|i: int| 0 <= i < rest.len() && resolved(f, #[trigger] rest[i]) is Err;
            assert(rest[i] == hosts[i + 1]);
        }
    }
}

/// Checks the runtime config of every host that a control config names, and that
/// of hosts it does not name.
pub fn validate_runtime_configs(config: &ControlConfigFile) -> (r: Result<(), InvalidRuntime>)
    ensures
        lists(config.hosts.listing(), config.hosts@),
        match r {
            Ok(_) => first_invalid(config@, host_names(*config)) is None,
            Err(e) => first_invalid(config@, host_names(*config)) == Some(e@),
        },
{
    let n: usize = config.hosts.len();
    match config.runtime_config_for("") {
        Ok(_) => {},
        Err(error) => {
            return Err(InvalidRuntime::Default(error));
        },
    }
    let ghost hosts = host_names(*config);
    assert(hosts.skip(0) == hosts);
    for i in 0..n
        invariant
            n == config.hosts.listing().len(),
            lists(config.hosts.listing(), config.hosts@),
            hosts == host_names(*config),
            hosts.len() == n,
            first_invalid(config@, hosts) == first_invalid_host(config@, hosts.skip(i as int)),
    {
        let hostname = config.hosts.key_at(i);
        assert(hosts.skip(i as int)[0] == hostname@);
        assert(hosts.skip(i as int).skip(1) == hosts.skip(i + 1));
        match config.runtime_config_for(hostname.as_str()) {
            Ok(_) => {},
            Err(error) => {
                return Err(InvalidRuntime::Host { hostname: hostname.clone(), error });
            },
        }
    }
    Ok(())
}

/// The contents that a control config is loaded from: those of its file, or none
/// where no file is configured.
pub open spec fn loaded_contents(source: Option<(String, ControlConfigFile)>) -> Seq<char> {
    match source {
        Some((contents, _)) => contents@,
        None => ""@,
    }
}

/// Takes a control config in: the contents of its file and what they say, or the
/// default config where no file is configured. Every runtime config that can be
/// told from it is validated.
pub fn load_control_config(source: Option<(String, ControlConfigFile)>) -> (r: Result<
    LoadedControlConfig,
    InvalidRuntime,
>)
    ensures
        match (source, r) {
            (Some((contents, config)), Ok(loaded)) => {
                &&& loaded.config == config
                &&& loaded.source_version@ == source_version(contents@)
                &&& first_invalid(config@, host_names(config)) is None
                &&& lists(config.hosts.listing(), config.hosts@)
            },
            (Some((contents, config)), Err(e)) => {
                &&& first_invalid(config@, host_names(config)) == Some(e@)
                &&& lists(config.hosts.listing(), config.hosts@)
            },
            (None, _) => {
                &&& r is Ok
                &&& r->Ok_0.source_version@ == source_version(""@)
                &&& r->Ok_0.config@ == empty_control()
            },
        },
{
    match source {
        Some((contents, config)) => match validate_runtime_configs(&config) {
            Ok(_) => Ok(
                LoadedControlConfig {
                    source_version: config_source_version(contents.as_str()),
                    config,
                },
            ),
            Err(e) => Err(e),
        },
        None => {
            let config = ControlConfigFile::default();
            match validate_runtime_configs(&config) {
                Ok(_) => Ok(
                    LoadedControlConfig { source_version: config_source_version(""), config },
                ),
                Err(e) => {
                    proof {
                        law_empty_config_resolves_to_defaults(""@);
                        if config.hosts.listing().len() > 0 {
                            let host = config.hosts.listing()[0].0;
                            lemma_entry(config.hosts.listing(), 0);
                            assert(config@.hosts.contains_key(host));
                        }
                    }
                    Err(e)
                },
            }
        },
    }
}

/// The version and the config that are active once a config was read, with the
/// host names that it has overrides for: its own where it is valid, and otherwise
/// those that were.
pub open spec fn active_after(
    active: (Seq<char>, ControlConfigFileView),
    contents: Seq<char>,
    read: ControlConfigFileView,
    hosts: Seq<Seq<char>>,
) -> (Seq<char>, ControlConfigFileView) {
    if first_invalid(read, hosts) is None {
        (source_version(contents), read)
    } else {
        active
    }
}

/// What an administrator is answered who has the config reloaded.
#[derive(Debug)]
pub struct ReloadResponse {
    /// Version of the config's source.
    pub version: String,
    /// How many agents are connected.
    pub notified_agents: usize,
}

/// Reloads a control config. Where the new one is valid it takes the place of
/// the active one, and connected agents are told; otherwise the active one
/// stays.
pub fn reload_control_config(
    active: &mut LoadedControlConfig,
    source: Option<(String, ControlConfigFile)>,
    registry: &AgentRegistry,
) -> (r: Result<(ReloadResponse, ServerControlMessage), InvalidRuntime>)
    ensures
        source matches Some((contents, config)) ==> (
            final(active).source_version@,
            final(active).config@,
        ) == active_after(
            (old(active).source_version@, old(active).config@),
            contents@,
            config@,
            host_names(config),
        ),
        match r {
            Ok((response, notification)) => {
                &&& response.version@ == source_version(loaded_contents(source))
                &&& final(active).source_version@ == source_version(loaded_contents(source))
                &&& notification@ == (ServerControlMessageView::ConfigChanged {
                    version: response.version@,
                })
                &&& response.notified_agents == registry@.dom().len()
                &&& response.notified_agents == registry.agents.listing().len()
                &&& lists(registry.agents.listing(), registry.agents@)
                &&& source matches Some((contents, config)) ==> {
                    &&& final(active).config == config
                    &&& first_invalid(config@, host_names(config)) is None
                    &&& lists(config.hosts.listing(), config.hosts@)
                }
                &&& source is None ==> final(active).config@ == empty_control()
            },
            Err(e) => {
                &&& *final(active) == *old(active)
                &&& source matches Some((contents, config)) && first_invalid(
                    config@,
                    host_names(config),
                ) == Some(e@) && lists(config.hosts.listing(), config.hosts@)
            },
        },
{
    match load_control_config(source) {
        Ok(loaded) => {
            let version = loaded.source_version.clone();
            let notified_agents: usize = registry.agents.len();
            assert(registry@.dom() =~= registry.agents@.dom());
            let notification = ServerControlMessage::ConfigChanged { version: version.clone() };
            *active = loaded;
            Ok((ReloadResponse { version, notified_agents }, notification))
        },
        Err(e) => Err(e),
    }
}

/// A control config that was loaded resolves for every host, named or not; save
/// that one which names the empty host name shows nothing of hosts it does not
/// name.
pub proof fn law_loaded_config_serves_every_host(config: ControlConfigFile, hostname: Seq<char>)
    requires
        lists(config.hosts.listing(), config.hosts@),
        first_invalid(config@, host_names(config)) is None,
        !config@.hosts.contains_key(""@),
    ensures
        resolved(config@, hostname) is Ok,
{
    let hosts = host_names(config);
    lemma_first_invalid_host(config@, hosts);
    if config@.hosts.contains_key(hostname) {
        let i = lemma_key(config.hosts.listing(), hostname);
        assert(hosts[i] == hostname);
    } else {
        law_hosts_without_override_share_settings(config@, hostname, ""@);
    }
}

/// What a load is refused for is wrong: the runtime config of hosts that are not
/// named, or that of a named host where those of all hosts before it are valid.
pub proof fn law_refused_config_is_wrong(f: ControlConfigFileView, hosts: Seq<Seq<char>>)
    ensures
        match first_invalid(f, hosts) {
            None => resolved(f, ""@) is Ok && forall|i: int|
                0 <= i < hosts.len() ==> resolved(f, #[trigger] hosts[i]) is Ok,
            Some(InvalidRuntimeView::Default(error)) => resolved(f, ""@) is Err && resolved(
                f,
                ""@,
            )->Err_0 == error,
            Some(InvalidRuntimeView::Host { hostname, error }) => {
                &&& resolved(f, ""@) is Ok
                &&& resolved(f, hostname) is Err && resolved(f, hostname)->Err_0 == error
                &&& exists|i: int|
                    0 <= i < hosts.len() && #[trigger] hosts[i] == hostname && forall|k: int|
                        0 <= k < i ==> resolved(f, #[trigger] hosts[k]) is Ok
            },
        },
{
    lemma_first_invalid_host(f, hosts);
    lemma_first_invalid_place(f, hosts);
}

proof fn lemma_first_invalid_place(f: ControlConfigFileView, hosts: Seq<Seq<char>>)
    ensures
        first_invalid_host(f, hosts) matches Some(fault) ==> {
            &&& fault is Host
            &&& resolved(f, fault->hostname) is Err
            &&& resolved(f, fault->hostname)->Err_0 == fault->Host_error
            &&& exists|i: int|
                0 <= i < hosts.len() && #[trigger] hosts[i] == fault->hostname && forall|k: int|
                    0 <= k < i ==> resolved(f, #[trigger] hosts[k]) is Ok
        },
    decreases hosts.len(),
{
    if hosts.len() > 0 {
        let rest = hosts.skip(1);
        lemma_first_invalid_place(f, rest);
        if resolved(f, hosts[0]) is Err {
            assert(hosts[0] == first_invalid_host(f, hosts)->0->hostname);
        } else if first_invalid_host(f, rest) is Some {
            let name = first_invalid_host(f, rest)->0->hostname;
            let i = choose|i: int|
                0 <= i < rest.len() && #[trigger] rest[i] == name && forall|k: int|
                    0 <= k < i ==> resolved(f, #[trigger] rest[k]) is Ok;
            assert(hosts[i + 1] == name);
            assert forall|k: int| 0 <= k < i + 1 implies resolved(f, #[trigger] hosts[k]) is Ok by {
                if k > 0 {
                    assert(hosts[k] == rest[k - 1]);
                }
            }
        }
    }
}

/// A config is versioned by the contents of its file, and as empty where there is
/// none.
pub proof fn law_loaded_contents_are_those_of_the_file(contents: String, config: ControlConfigFile)
    ensures
        loaded_contents(Some((contents, config))) == contents@,
        loaded_contents(None).len() == 0,
{
    reveal_strlit("");
}

/// A config that was read becomes active just where the runtime configs of all
/// hosts that it names, and of hosts that it does not, are valid; it then has the
/// version of its contents. Otherwise what is active stays.
pub proof fn law_only_a_valid_config_becomes_active(
    active: (Seq<char>, ControlConfigFileView),
    contents: Seq<char>,
    read: ControlConfigFileView,
    hosts: Seq<Seq<char>>,
)
    ensures
        ({
            let next = active_after(active, contents, read, hosts);
            let valid = resolved(read, ""@) is Ok && forall|i: int|
                0 <= i < hosts.len() ==> resolved(read, #[trigger] hosts[i]) is Ok;
            &&& valid ==> next.0 == source_version(contents) && next.1 == read
            &&& !valid ==> next == active
        }),
{
    lemma_first_invalid_host(read, hosts);
}

} // verus!
