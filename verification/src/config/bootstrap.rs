//! The configuration file of an agent.

use vstd::prelude::*;
use vstd::slice::slice_subrange;

use crate::address::{is_loopback_address, loopback_address};
use crate::config::error::{fault_of, first_fault, ConfigError, ConfigErrorView};
use crate::config::runtime::{
    default_agent, default_cpu, default_disk_io, default_memory, default_network, default_storage,
    law_validation_accepts_exactly_the_valid, runtime_fault, valid_runtime, AgentRuntimeConfig,
    AgentRuntimeConfigView, AgentRuntimeSettings, CpuConfig, DiskIoConfig, MemoryConfig,
    NetworkConfig, StorageConfig, StorageConfigView, LOCAL_CONFIG_VERSION,
};
use crate::split::{among, law_text_before_a_stop, take_until, until};
use crate::text::{chars_of, spells, starts_with};

verus! {

/// Where the control server answers HTTP requests, if nothing else is said.
pub const DEFAULT_CONTROL_HTTP_URL: &'static str = "http://127.0.0.1:3501";

/// Where the control server takes control sessions, if nothing else is said.
pub const DEFAULT_CONTROL_WS_URL: &'static str = "ws://127.0.0.1:3501/agent/control";

/// Where metrics are exported to, if nothing else is said.
pub const DEFAULT_OTLP_ENDPOINT: &'static str = "http://127.0.0.1:4317";

/// Where the agent keeps its state, if nothing else is said.
pub const DEFAULT_STATE_DIR: &'static str = "/var/lib/talia";

/// The config field of the HTTP endpoint.
pub const CONTROL_HTTP_URL_FIELD: &'static str = "control_http_url";

/// The config field of the WebSocket endpoint.
pub const CONTROL_WS_URL_FIELD: &'static str = "control_ws_url";

// ---------------------------------------------------------------------------
// Control URLs
// ---------------------------------------------------------------------------

/// The part of a URL between its scheme and its path, query or fragment.
pub open spec fn authority_of(rest: Seq<char>) -> Seq<char> {
    until(rest, seq!['/', '?', '#'])
}

/// The host that an authority names: what stands in square brackets at its
/// start, or else what stands before the first colon.
pub open spec fn host_of(authority: Seq<char>) -> Seq<char> {
    if authority.len() > 0 && authority[0] == '[' {
        until(authority.skip(1), seq![']'])
    } else {
        until(authority, seq![':'])
    }
}

/// Whether what follows the scheme of a URL leads to the host itself. One that
/// carries user information does not count.
pub open spec fn leads_to_loopback(rest: Seq<char>) -> bool {
    let authority = authority_of(rest);
    &&& !authority.contains('@')
    &&& host_of(authority) == "localhost"@ || is_loopback_address(host_of(authority))
}

/// Whether a control URL may be used: a secure one may, and a plaintext one
/// where plaintext is allowed or the URL leads to the host itself.
pub open spec fn control_url_allowed(
    value: Seq<char>,
    secure_prefix: Seq<char>,
    plain_prefix: Seq<char>,
    allow_insecure: bool,
) -> bool {
    ||| secure_prefix.is_prefix_of(value)
    ||| {
        &&& plain_prefix.is_prefix_of(value)
        &&& allow_insecure || leads_to_loopback(value.skip(plain_prefix.len() as int))
    }
}

/// What is wrong with a control URL.
pub open spec fn control_url_fault(
    field: Seq<char>,
    value: Seq<char>,
    secure_prefix: Seq<char>,
    plain_prefix: Seq<char>,
    allow_insecure: bool,
) -> Option<ConfigErrorView> {
    if control_url_allowed(value, secure_prefix, plain_prefix, allow_insecure) {
        None
    } else {
        Some(ConfigErrorView::InsecureControlUrl { field, value })
    }
}

fn plaintext_url_is_loopback(value: &str, prefix: &str) -> (r: bool)
    requires
        prefix@.is_prefix_of(value@),
    ensures
        r == leads_to_loopback(value@.skip(prefix@.len() as int)),
{
    let chars = chars_of(value);
    let skipped = chars_of(prefix);
    let n: usize = chars.len();
    let rest = slice_subrange(chars.as_slice(), skipped.len(), n);
    assert(rest@ == value@.skip(prefix@.len() as int));
    let ends: Vec<char> = vec!['/', '?', '#'];
    assert(ends@ == seq!['/', '?', '#']);
    let authority = take_until(rest, ends.as_slice());
    if among('@', authority) {
        return false;
    }
    let size: usize = authority.len();
    if size > 0 && authority[0] == '[' {
        let close: Vec<char> = vec![']'];
        assert(close@ == seq![']']);
        let inner = slice_subrange(authority, 1, size);
        assert(inner@ == authority@.skip(1));
        let host = take_until(inner, close.as_slice());
        spells(host, "localhost") || loopback_address(host)
    } else {
        let colon: Vec<char> = vec![':'];
        assert(colon@ == seq![':']);
        let host = take_until(authority, colon.as_slice());
        spells(host, "localhost") || loopback_address(host)
    }
}

/// Checks that a control URL is secure, or plaintext where that is allowed.
pub fn validate_control_url(
    field: &'static str,
    value: &str,
    secure_prefix: &str,
    loopback_prefix: &str,
    allow_insecure_control_url: bool,
) -> (r: Result<(), ConfigError>)
    ensures
        fault_of(r) == control_url_fault(
            field@,
            value@,
            secure_prefix@,
            loopback_prefix@,
            allow_insecure_control_url,
        ),
{
    if starts_with(value, secure_prefix) {
        return Ok(());
    }
    if starts_with(value, loopback_prefix) {
        if allow_insecure_control_url {
            return Ok(());
        }
        if plaintext_url_is_loopback(value, loopback_prefix) {
            return Ok(());
        }
    }
    Err(ConfigError::InsecureControlUrl { field, value: value.to_string() })
}

// ---------------------------------------------------------------------------
// The bootstrap config
// ---------------------------------------------------------------------------

/// Local bootstrap configuration that an agent reads at startup.
///
/// It tells the agent where to reach the control plane, where to keep its
/// identity and its last-known config, and what runtime settings to use before
/// remote configuration is available.
#[derive(Debug)]
pub struct AgentBootstrapConfig {
    /// HTTP control-plane endpoint used for runtime config fetches.
    pub control_http_url: String,
    /// WebSocket control-plane endpoint used for heartbeat/control messages.
    pub control_ws_url: String,
    /// Allows http/ws control URLs for private internal deployments.
    pub allow_insecure_control_url: bool,
    /// Shared bearer token used for control-plane authentication.
    pub control_token: Option<String>,
    /// Optional per-agent credential used to fetch dynamic runtime config.
    pub agent_config_token: Option<String>,
    /// OpenTelemetry OTLP metric export endpoint.
    pub otlp_endpoint: String,
    /// Agent state directory for persistent identity and cached config.
    pub state_dir: String,
    /// Fallback local agent runtime settings.
    pub agent: AgentRuntimeSettings,
    /// Fallback local storage collector settings.
    pub storage: StorageConfig,
    /// Fallback local memory collector settings.
    pub memory: MemoryConfig,
    /// Fallback local CPU collector settings.
    pub cpu: CpuConfig,
    /// Fallback local network collector settings.
    pub network: NetworkConfig,
    /// Fallback local disk I/O collector settings.
    pub disk_io: DiskIoConfig,
}

/// What an [`AgentBootstrapConfig`] says.
#[verifier::ext_equal]
pub struct AgentBootstrapConfigView {
    pub control_http_url: Seq<char>,
    pub control_ws_url: Seq<char>,
    pub allow_insecure_control_url: bool,
    pub control_token: Option<Seq<char>>,
    pub agent_config_token: Option<Seq<char>>,
    pub otlp_endpoint: Seq<char>,
    pub state_dir: Seq<char>,
    pub agent: AgentRuntimeSettings,
    pub storage: StorageConfigView,
    pub memory: MemoryConfig,
    pub cpu: CpuConfig,
    pub network: NetworkConfig,
    pub disk_io: DiskIoConfig,
}

/// The text of an optional string.
pub open spec fn optional_text(s: Option<String>) -> Option<Seq<char>> {
    match s {
        Some(t) => Some(t@),
        None => None,
    }
}

/// Copies an optional string.
pub fn copy_optional(s: &Option<String>) -> (r: Option<String>)
    ensures
        optional_text(r) == optional_text(*s),
{
    match s {
        Some(t) => Some(t.clone()),
        None => None,
    }
}

impl View for AgentBootstrapConfig {
    type V = AgentBootstrapConfigView;

    open spec fn view(&self) -> AgentBootstrapConfigView {
        AgentBootstrapConfigView {
            control_http_url: self.control_http_url@,
            control_ws_url: self.control_ws_url@,
            allow_insecure_control_url: self.allow_insecure_control_url,
            control_token: optional_text(self.control_token),
            agent_config_token: optional_text(self.agent_config_token),
            otlp_endpoint: self.otlp_endpoint@,
            state_dir: self.state_dir@,
            agent: self.agent,
            storage: self.storage@,
            memory: self.memory,
            cpu: self.cpu,
            network: self.network,
            disk_io: self.disk_io,
        }
    }
}

impl Clone for AgentBootstrapConfig {
    fn clone(&self) -> (r: Self)
        ensures
            r@ == self@,
    {
        AgentBootstrapConfig {
            control_http_url: self.control_http_url.clone(),
            control_ws_url: self.control_ws_url.clone(),
            allow_insecure_control_url: self.allow_insecure_control_url,
            control_token: copy_optional(&self.control_token),
            agent_config_token: copy_optional(&self.agent_config_token),
            otlp_endpoint: self.otlp_endpoint.clone(),
            state_dir: self.state_dir.clone(),
            agent: self.agent,
            storage: self.storage.clone(),
            memory: self.memory,
            cpu: self.cpu,
            network: self.network,
            disk_io: self.disk_io,
        }
    }
}

/// The runtime config that a bootstrap config falls back on.
pub open spec fn fallback_runtime(b: AgentBootstrapConfigView) -> AgentRuntimeConfigView {
    AgentRuntimeConfigView {
        version: LOCAL_CONFIG_VERSION@,
        agent: b.agent,
        storage: b.storage,
        memory: b.memory,
        cpu: b.cpu,
        network: b.network,
        disk_io: b.disk_io,
    }
}

/// The first thing wrong with a bootstrap config.
pub open spec fn bootstrap_fault(b: AgentBootstrapConfigView) -> Option<ConfigErrorView> {
    first_fault(
        control_url_fault(
            CONTROL_HTTP_URL_FIELD@,
            b.control_http_url,
            "https://"@,
            "http://"@,
            b.allow_insecure_control_url,
        ),
        first_fault(
            control_url_fault(
                CONTROL_WS_URL_FIELD@,
                b.control_ws_url,
                "wss://"@,
                "ws://"@,
                b.allow_insecure_control_url,
            ),
            runtime_fault(fallback_runtime(b)),
        ),
    )
}

/// The bootstrap config of an agent that has no config file.
pub open spec fn default_bootstrap() -> AgentBootstrapConfigView {
    AgentBootstrapConfigView {
        control_http_url: DEFAULT_CONTROL_HTTP_URL@,
        control_ws_url: DEFAULT_CONTROL_WS_URL@,
        allow_insecure_control_url: false,
        control_token: None,
        agent_config_token: None,
        otlp_endpoint: DEFAULT_OTLP_ENDPOINT@,
        state_dir: DEFAULT_STATE_DIR@,
        agent: default_agent(),
        storage: default_storage(),
        memory: default_memory(),
        cpu: default_cpu(),
        network: default_network(),
        disk_io: default_disk_io(),
    }
}

impl AgentBootstrapConfig {
    /// Builds the runtime config used before or without a control-plane response.
    pub fn fallback_runtime_config(&self) -> (r: AgentRuntimeConfig)
        ensures
            r@ == fallback_runtime(self@),
    {
        AgentRuntimeConfig {
            version: LOCAL_CONFIG_VERSION.to_string(),
            agent: self.agent,
            storage: self.storage.clone(),
            memory: self.memory,
            cpu: self.cpu,
            network: self.network,
            disk_io: self.disk_io,
        }
    }

    /// Validates bootstrap URLs and fallback runtime configuration.
    pub fn validate(&self) -> (r: Result<(), ConfigError>)
        ensures
            fault_of(r) == bootstrap_fault(self@),
    {
        validate_control_url(
            CONTROL_HTTP_URL_FIELD,
            self.control_http_url.as_str(),
            "https://",
            "http://",
            self.allow_insecure_control_url,
        )?;
        validate_control_url(
            CONTROL_WS_URL_FIELD,
            self.control_ws_url.as_str(),
            "wss://",
            "ws://",
            self.allow_insecure_control_url,
        )?;
        self.fallback_runtime_config().validate()
    }
}

impl Default for AgentBootstrapConfig {
    fn default() -> (r: Self)
        ensures
            r@ == default_bootstrap(),
    {
        AgentBootstrapConfig {
            control_http_url: DEFAULT_CONTROL_HTTP_URL.to_string(),
            control_ws_url: DEFAULT_CONTROL_WS_URL.to_string(),
            allow_insecure_control_url: false,
            control_token: None,
            agent_config_token: None,
            otlp_endpoint: DEFAULT_OTLP_ENDPOINT.to_string(),
            state_dir: DEFAULT_STATE_DIR.to_string(),
            agent: AgentRuntimeSettings::default(),
            storage: StorageConfig::default(),
            memory: MemoryConfig::default(),
            cpu: CpuConfig::default(),
            network: NetworkConfig::default(),
            disk_io: DiskIoConfig::default(),
        }
    }
}

/// Without leave for plaintext, every control URL of an accepted bootstrap
/// config is secure or leads to the host itself.
pub proof fn law_accepted_urls_are_secure_or_loopback(b: AgentBootstrapConfigView)
    requires
        bootstrap_fault(b) is None,
        !b.allow_insecure_control_url,
    ensures
        "https://"@.is_prefix_of(b.control_http_url) || ("http://"@.is_prefix_of(b.control_http_url)
            && leads_to_loopback(b.control_http_url.skip("http://"@.len() as int))),
        "wss://"@.is_prefix_of(b.control_ws_url) || ("ws://"@.is_prefix_of(b.control_ws_url)
            && leads_to_loopback(b.control_ws_url.skip("ws://"@.len() as int))),
{
}

/// An accepted bootstrap config falls back on a valid runtime config.
pub proof fn law_accepted_fallback_is_valid(b: AgentBootstrapConfigView)
    requires
        bootstrap_fault(b) is None,
    ensures
        valid_runtime(fallback_runtime(b)),
{
    law_validation_accepts_exactly_the_valid(fallback_runtime(b));
}

/// A bootstrap config is accepted just where both control URLs are encrypted, or
/// plain and either allowed to be or on the loopback interface, and where its own
/// settings may be applied.
pub proof fn law_bootstrap_is_accepted_just_where_in_order(b: AgentBootstrapConfigView)
    ensures
        bootstrap_fault(b) is None <==> {
            &&& "https://"@.is_prefix_of(b.control_http_url) || ("http://"@.is_prefix_of(
                b.control_http_url,
            ) && (b.allow_insecure_control_url || leads_to_loopback(
                b.control_http_url.skip("http://"@.len() as int),
            )))
            &&& "wss://"@.is_prefix_of(b.control_ws_url) || ("ws://"@.is_prefix_of(
                b.control_ws_url,
            ) && (b.allow_insecure_control_url || leads_to_loopback(
                b.control_ws_url.skip("ws://"@.len() as int),
            )))
            &&& valid_runtime(fallback_runtime(b))
        },
{
    law_validation_accepts_exactly_the_valid(fallback_runtime(b));
}

/// Of what is wrong with a bootstrap config the URL for requests is named first,
/// then that for sessions, and then the settings.
pub proof fn law_insecure_urls_are_named_first(b: AgentBootstrapConfigView)
    ensures
        ({
            let http = "https://"@.is_prefix_of(b.control_http_url) || ("http://"@.is_prefix_of(
                b.control_http_url,
            ) && (b.allow_insecure_control_url || leads_to_loopback(
                b.control_http_url.skip("http://"@.len() as int),
            )));
            let ws = "wss://"@.is_prefix_of(b.control_ws_url) || ("ws://"@.is_prefix_of(
                b.control_ws_url,
            ) && (b.allow_insecure_control_url || leads_to_loopback(
                b.control_ws_url.skip("ws://"@.len() as int),
            )));
            &&& !http ==> bootstrap_fault(b) == Some(
                ConfigErrorView::InsecureControlUrl {
                    field: "control_http_url"@,
                    value: b.control_http_url,
                },
            )
            &&& http && !ws ==> bootstrap_fault(b) == Some(
                ConfigErrorView::InsecureControlUrl {
                    field: "control_ws_url"@,
                    value: b.control_ws_url,
                },
            )
            &&& http && ws ==> bootstrap_fault(b) == runtime_fault(fallback_runtime(b))
        }),
{
}

/// The fallback config has the settings of the bootstrap config, each in its own
/// place, under the version of configs that no server gave out.
pub proof fn law_fallback_has_the_bootstrap_settings(b: AgentBootstrapConfigView)
    ensures
        fallback_runtime(b).version == "local"@,
        fallback_runtime(b).agent == b.agent,
        fallback_runtime(b).storage == b.storage,
        fallback_runtime(b).memory == b.memory,
        fallback_runtime(b).cpu == b.cpu,
        fallback_runtime(b).network == b.network,
        fallback_runtime(b).disk_io == b.disk_io,
{
}

/// A URL that names a user never leads to the loopback interface; and one that
/// does has a loopback host.
pub proof fn law_user_names_are_not_trusted(rest: Seq<char>)
    ensures
        until(rest, seq!['/', '?', '#']).contains('@') ==> !leads_to_loopback(rest),
        leads_to_loopback(rest) ==> {
            let host = host_of(until(rest, seq!['/', '?', '#']));
            host == "localhost"@ || is_loopback_address(host)
        },
{
}

/// A URL leads to the loopback interface by its host alone: neither the port nor
/// what follows matters.
pub proof fn law_host_decides(host: Seq<char>, port: Seq<char>, path: Seq<char>)
    requires
        forall|i: int|
            0 <= i < host.len() ==> {
                let c = #[trigger] host[i];
                c != '/' && c != '?' && c != '#' && c != '@' && c != ':'
            },
        host.len() > 0 ==> host[0] != '[',
        port.len() > 0 ==> port[0] == ':',
        forall|i: int|
            0 <= i < port.len() ==> {
                let c = #[trigger] port[i];
                c != '/' && c != '?' && c != '#' && c != '@'
            },
        path.len() > 0 ==> path[0] == '/' || path[0] == '?' || path[0] == '#',
    ensures
        leads_to_loopback(host + port + path) <==> host == "localhost"@ || is_loopback_address(
            host,
        ),
{
    let stops = seq!['/', '?', '#'];
    let authority = host + port;
    assert(stops[0] == '/' && stops[1] == '?' && stops[2] == '#');
    assert forall|i: int| 0 <= i < authority.len() implies !stops.contains(
        #[trigger] authority[i],
    ) && authority[i] != '@' by {
        if i < host.len() {
            assert(authority[i] == host[i]);
        } else {
            assert(authority[i] == port[i - host.len()]);
        }
    }
    law_text_before_a_stop(authority, path, stops);
    let colon = seq![':'];
    assert(colon[0] == ':');
    law_text_before_a_stop(host, port, colon);
    if authority.len() > 0 {
        if host.len() > 0 {
            assert(authority[0] == host[0]);
        } else {
            assert(authority[0] == port[0]);
        }
    }
    assert(!authority.contains('@'));
}

/// A host in brackets is what stands between them.
pub proof fn law_host_in_brackets_decides(host: Seq<char>, port: Seq<char>, path: Seq<char>)
    requires
        forall|i: int|
            0 <= i < host.len() ==> {
                let c = #[trigger] host[i];
                c != '/' && c != '?' && c != '#' && c != '@' && c != ']'
            },
        forall|i: int|
            0 <= i < port.len() ==> {
                let c = #[trigger] port[i];
                c != '/' && c != '?' && c != '#' && c != '@'
            },
        path.len() > 0 ==> path[0] == '/' || path[0] == '?' || path[0] == '#',
    ensures
        leads_to_loopback(seq!['['] + host + seq![']'] + port + path) <==> host == "localhost"@
            || is_loopback_address(host),
{
    let stops = seq!['/', '?', '#'];
    assert(stops[0] == '/' && stops[1] == '?' && stops[2] == '#');
    let authority = seq!['['] + host + seq![']'] + port;
    let n = host.len() as int;
    assert forall|i: int| 0 <= i < authority.len() implies !stops.contains(
        #[trigger] authority[i],
    ) && authority[i] != '@' by {
        if 0 < i <= n {
            assert(authority[i] == host[i - 1]);
        } else if i > n + 1 {
            assert(authority[i] == port[i - n - 2]);
        }
    }
    law_text_before_a_stop(authority, path, stops);
    assert(!authority.contains('@'));
    let close = seq![']'];
    assert(close[0] == ']');
    assert(authority.skip(1) =~= host + (close + port));
    law_text_before_a_stop(host, close + port, close);
}

/// Where nothing is configured, an agent talks to a server and a collector on its
/// own host, has no secrets, and has the built-in settings.
pub proof fn law_defaults_stay_on_the_host()
    ensures
        ({
            let b = default_bootstrap();
            &&& b.control_http_url == "http://127.0.0.1:3501"@
            &&& b.control_ws_url == "ws://127.0.0.1:3501/agent/control"@
            &&& !b.allow_insecure_control_url
            &&& b.control_token is None
            &&& b.agent_config_token is None
            &&& b.otlp_endpoint == "http://127.0.0.1:4317"@
            &&& b.state_dir == "/var/lib/talia"@
            &&& fallback_runtime(b) == crate::config::runtime::default_runtime()
        }),
{
}

} // verus!
