//! The control server.

use axum::http::header::AUTHORIZATION;
use axum::http::{HeaderMap, HeaderValue};
use talia::config::control_file::{AgentEnrollment, ControlConfigFile};
use talia::config::error::ConfigError;
use talia::config::overrides::{
    AgentSettingsOverride, CpuConfigOverride, DiskIoConfigOverride, HostConfigOverride,
    MemoryConfigOverride, NetworkConfigOverride, StorageConfigOverride,
};
use talia::config::version::config_source_version;
use talia::control::{
    AgentControlMessage, ServerControlMessage, AGENT_CONFIG_TOKEN_HEADER, AGENT_ID_HEADER,
    CONFIG_SESSION_ID_HEADER,
};
use talia::headers::{authorized, header_value, value_bearer_token, value_text};
use talia::server::registry::{
    AgentHello, AgentRegistry, ConnectedAgent, Reply, Session,
};
use talia::server::reload::{
    load_control_config, reload_control_config, validate_runtime_configs, InvalidRuntime,
    LoadedControlConfig,
};
use talia::server::service::{
    admin_agents, admin_config_reload, agent_config, open_session, session_step, ConfigAnswer,
    ReloadAnswer, SessionEvent, SessionStep,
};
use talia::server::tokens::{validate_control_tokens, TokenError};
use toml::{Table, Value};

fn table<'a>(parent: &'a Table, key: &str) -> Option<&'a Table> {
    parent.get(key).and_then(Value::as_table)
}

fn seconds(section: Option<&Table>, key: &str) -> Option<u64> {
    section
        .and_then(|s| s.get(key))
        .and_then(Value::as_integer)
        .map(|n| n as u64)
}

fn switch(section: Option<&Table>) -> Option<bool> {
    section.and_then(|s| s.get("enabled")).and_then(Value::as_bool)
}

fn host_override(section: &Table) -> HostConfigOverride {
    let agent = table(section, "agent");
    let storage = table(section, "storage");
    let memory = table(section, "memory");
    let cpu = table(section, "cpu");
    let network = table(section, "network");
    let disk_io = table(section, "disk_io");
    HostConfigOverride {
        agent: AgentSettingsOverride {
            config_poll_interval_seconds: seconds(agent, "config_poll_interval_seconds"),
            heartbeat_interval_seconds: seconds(agent, "heartbeat_interval_seconds"),
        },
        storage: StorageConfigOverride {
            enabled: switch(storage),
            interval_seconds: seconds(storage, "interval_seconds"),
            mounts: storage
                .and_then(|s| s.get("mounts"))
                .and_then(Value::as_array)
                .map(|list| {
                    list.iter()
                        .map(|mount| mount.as_str().expect("mount").to_string())
                        .collect()
                }),
        },
        memory: MemoryConfigOverride {
            enabled: switch(memory),
            interval_seconds: seconds(memory, "interval_seconds"),
        },
        cpu: CpuConfigOverride {
            enabled: switch(cpu),
            interval_seconds: seconds(cpu, "interval_seconds"),
        },
        network: NetworkConfigOverride {
            enabled: switch(network),
            interval_seconds: seconds(network, "interval_seconds"),
        },
        disk_io: DiskIoConfigOverride {
            enabled: switch(disk_io),
            interval_seconds: seconds(disk_io, "interval_seconds"),
        },
    }
}

fn control_config(text: &str) -> ControlConfigFile {
    let root: Table = toml::from_str(text).expect("config should parse");
    let mut config = ControlConfigFile::default();
    if let Some(defaults) = table(&root, "defaults") {
        config.defaults = host_override(defaults);
    }
    if let Some(hosts) = table(&root, "hosts") {
        for (hostname, section) in hosts {
            let section = section.as_table().expect("host section");
            config.hosts.insert(hostname.clone(), host_override(section));
        }
    }
    if let Some(agents) = table(&root, "agents") {
        for (agent_id, section) in agents {
            config.agents.insert(
                agent_id.clone(),
                AgentEnrollment {
                    hostname: section["hostname"].as_str().expect("hostname").to_string(),
                    config_token: section
                        .get("config_token")
                        .and_then(Value::as_str)
                        .map(ToString::to_string),
                },
            );
        }
    }
    config
}

struct State {
    agent_token: &'static str,
    admin_token: &'static str,
    config: LoadedControlConfig,
    agents: AgentRegistry,
}

fn test_state(config: &str) -> State {
    State {
        agent_token: "agent-token",
        admin_token: "admin-token",
        config: LoadedControlConfig {
            source_version: config_source_version(config),
            config: control_config(config),
        },
        agents: AgentRegistry::new(),
    }
}

fn connect_test_agent(state: &mut State, agent_id: &str, hostname: &str) {
    connect_test_agent_with_connection(state, agent_id, hostname, "test-connection");
}

fn connect_test_agent_with_connection(
    state: &mut State,
    agent_id: &str,
    hostname: &str,
    connection_id: &str,
) {
    state.agents.insert(
        agent_id.to_string(),
        ConnectedAgent {
            agent_id: agent_id.to_string(),
            hostname: hostname.to_string(),
            agent_version: "test-agent".to_string(),
            boot_id: None,
            config_version: None,
            enabled_collectors: Vec::new(),
            connected_at_unix_seconds: 1,
            last_seen_unix_seconds: 1,
            connection_id: connection_id.to_string(),
        },
    );
}

fn test_hello(agent_id: &str, hostname: &str) -> AgentHello {
    AgentHello {
        agent_id: agent_id.to_string(),
        hostname: hostname.to_string(),
        agent_version: "test-agent".to_string(),
        boot_id: None,
    }
}

fn session(connection_id: &str, token: Option<&str>) -> Session {
    Session {
        connection_id: connection_id.to_string(),
        current_agent_id: None,
        agent_config_token: token.map(ToString::to_string),
    }
}

fn bearer(token: &str) -> HeaderMap {
    authorization_header(&format!("Bearer {token}"))
}

fn authorization_header(value: &str) -> HeaderMap {
    let mut headers = HeaderMap::new();
    headers.insert(
        AUTHORIZATION,
        HeaderValue::from_str(value).expect("authorization value should be a header value"),
    );
    headers
}

fn agent_headers(
    agent_id: &str,
    config_session_id: &str,
    agent_config_token: Option<&str>,
) -> HeaderMap {
    let mut headers = HeaderMap::new();
    headers.insert(AUTHORIZATION, HeaderValue::from_static("Bearer agent-token"));
    headers.insert(
        AGENT_ID_HEADER,
        HeaderValue::from_str(agent_id).expect("agent id should be a header value"),
    );
    headers.insert(
        CONFIG_SESSION_ID_HEADER,
        HeaderValue::from_str(config_session_id)
            .expect("config session id should be a header value"),
    );
    if let Some(agent_config_token) = agent_config_token {
        headers.insert(
            AGENT_CONFIG_TOKEN_HEADER,
            HeaderValue::from_str(agent_config_token)
                .expect("agent config token should be a header value"),
        );
    }
    headers
}

fn answer(state: &State, headers: &HeaderMap) -> ConfigAnswer {
    agent_config(headers, state.agent_token, &state.agents, &state.config.config)
}

#[test]
fn control_config_applies_hostname_override() {
    let config = control_config(
        r#"
            [agents."agent-1"]
            hostname = "prod-vps-1"
            config_token = "agent-secret"

            [defaults.agent]
            config_poll_interval_seconds = 900

            [defaults.storage]
            interval_seconds = 60
            mounts = ["/"]

            [defaults.memory]
            enabled = true
            interval_seconds = 60

            [defaults.cpu]
            enabled = true
            interval_seconds = 1

            [defaults.network]
            enabled = true
            interval_seconds = 1

            [defaults.disk_io]
            enabled = true
            interval_seconds = 1

            [hosts."prod-vps-1".storage]
            interval_seconds = 30
            mounts = ["/", "/var/lib/docker"]

            [hosts."prod-vps-1".memory]
            interval_seconds = 30

            [hosts."prod-vps-1".cpu]
            interval_seconds = 2

            [hosts."prod-vps-1".network]
            interval_seconds = 2

            [hosts."prod-vps-1".disk_io]
            interval_seconds = 2
            "#,
    );

    let runtime = config
        .runtime_config_for("prod-vps-1")
        .expect("runtime config should validate");

    assert_eq!(runtime.agent.config_poll_interval_seconds, 900);
    assert_eq!(runtime.storage.interval_seconds, 30);
    assert_eq!(runtime.storage.mounts, ["/", "/var/lib/docker"]);
    assert!(runtime.memory.enabled);
    assert_eq!(runtime.memory.interval_seconds, 30);
    assert!(runtime.cpu.enabled);
    assert_eq!(runtime.cpu.interval_seconds, 2);
    assert!(runtime.network.enabled);
    assert_eq!(runtime.network.interval_seconds, 2);
    assert!(runtime.disk_io.enabled);
    assert_eq!(runtime.disk_io.interval_seconds, 2);
    assert!(runtime.version.starts_with("cfg-"));
    assert!(config.has_host_override("prod-vps-1"));
    assert!(config.agent_is_enrolled_for_hostname("agent-1", "prod-vps-1"));
    assert!(config.agent_config_token_matches("agent-1", "agent-secret"));
    assert!(!config.agent_config_token_matches("agent-1", "wrong-secret"));
    assert!(!config.agent_is_enrolled_for_hostname("agent-2", "prod-vps-1"));
}

#[test]
fn unnamed_hosts_get_the_defaults() {
    let config = control_config("");

    let runtime = config.runtime_config_for("host-1").expect("defaults are valid");

    assert_eq!(runtime.version, "cfg-3607a450e6b15400");
    assert_eq!(runtime.storage.mounts, ["/"]);
    assert!(!config.has_host_override("host-1"));
    assert!(!config.agent_config_token_matches("agent-1", ""));
}

#[test]
fn enrollment_without_token_never_matches() {
    let config = control_config("[agents.\"agent-1\"]\nhostname = \"h\"\n");

    assert!(config.agent_is_enrolled_for_hostname("agent-1", "h"));
    assert!(!config.agent_config_token_matches("agent-1", ""));
    assert!(!config.agent_config_token_matches("agent-1", "x"));
}

#[test]
fn control_tokens_reject_empty_values() {
    assert!(validate_control_tokens(String::new(), "admin".to_string()).is_err());
    assert!(validate_control_tokens("agent".to_string(), "   ".to_string()).is_err());
}

#[test]
fn control_tokens_must_be_distinct() {
    let result = validate_control_tokens("same".to_string(), "same".to_string());

    assert!(result.is_err());
}

#[test]
fn control_tokens_are_trimmed_and_faults_named() {
    assert_eq!(
        validate_control_tokens(" agent\n".to_string(), "\tadmin ".to_string()),
        Ok(("agent".to_string(), "admin".to_string()))
    );
    assert_eq!(
        validate_control_tokens(" ".to_string(), " ".to_string()),
        Err(TokenError::EmptyAgentToken)
    );
    assert_eq!(
        validate_control_tokens("a".to_string(), " ".to_string()),
        Err(TokenError::EmptyAdminToken)
    );
    assert_eq!(
        validate_control_tokens("a ".to_string(), " a".to_string()),
        Err(TokenError::SameToken)
    );
    assert_eq!(
        TokenError::SameToken.message(),
        "TALIA_ADMIN_TOKEN must be distinct from TALIA_CONTROL_TOKEN"
    );
}

#[test]
fn empty_authorization_token_never_matches() {
    let mut headers = HeaderMap::new();
    headers.insert(AUTHORIZATION, HeaderValue::from_static("Bearer "));

    assert!(!authorized(&headers, ""));
}

#[test]
fn authorization_token_matches_only_exact_bearer_value() {
    let headers = [
        bearer("control-secret"),
        bearer("control-secre"),
        bearer("control-secret-extra"),
        authorization_header("Basic control-secret"),
        HeaderMap::new(),
    ];

    let results = headers.map(|headers| authorized(&headers, "control-secret"));

    assert_eq!(results, [true, false, false, false, false]);
}

#[test]
fn header_values_are_trimmed_visible_text() {
    assert_eq!(value_text(b" \tagent-1 "), Some("agent-1".to_string()));
    assert_eq!(value_text(b"   "), None);
    assert_eq!(value_text(b""), None);
    assert_eq!(value_text(b"caf\xc3\xa9"), None);
    assert_eq!(value_text(b"a\x7f"), None);
    assert_eq!(value_bearer_token(b"Bearer  x "), Some(" x ".to_string()));
    assert_eq!(value_bearer_token(b"bearer x"), None);

    let mut headers = HeaderMap::new();
    headers.append(AGENT_ID_HEADER, HeaderValue::from_static(" first "));
    headers.append(AGENT_ID_HEADER, HeaderValue::from_static("second"));
    assert_eq!(
        header_value(&headers, AGENT_ID_HEADER),
        Some("first".to_string())
    );
    assert_eq!(header_value(&headers, CONFIG_SESSION_ID_HEADER), None);
}

#[test]
fn agent_config_serves_enrolled_agent_default_config() {
    let mut state = test_state(
        r#"
            [agents."agent-1"]
            hostname = "host-1"
            config_token = "agent-secret"

            [defaults.storage]
            interval_seconds = 45
            mounts = ["/"]
            "#,
    );
    connect_test_agent(&mut state, "agent-1", "host-1");

    let response = answer(
        &state,
        &agent_headers("agent-1", "test-connection", Some("agent-secret")),
    );

    assert_eq!(response.status(), 200);
    match response {
        ConfigAnswer::Served(runtime) => assert_eq!(runtime.storage.interval_seconds, 45),
        _ => panic!("runtime config should be served"),
    }
}

#[test]
fn agent_config_rejects_unenrolled_agent_default_config() {
    let mut state = test_state(
        r#"
            [defaults.storage]
            interval_seconds = 45
            mounts = ["/"]
            "#,
    );
    connect_test_agent(&mut state, "agent-1", "host-1");

    let response = answer(
        &state,
        &agent_headers("agent-1", "test-connection", Some("agent-secret")),
    );

    assert_eq!(response.status(), 403);
}

#[test]
fn agent_config_serves_connected_agent_host_override() {
    let mut state = test_state(
        r#"
            [agents."agent-1"]
            hostname = "prod-vps-1"
            config_token = "agent-secret"

            [defaults.storage]
            interval_seconds = 60
            mounts = ["/"]

            [hosts."prod-vps-1".storage]
            interval_seconds = 30
            mounts = ["/", "/var/lib/docker"]
            "#,
    );
    connect_test_agent(&mut state, "agent-1", "prod-vps-1");

    let response = answer(
        &state,
        &agent_headers("agent-1", "test-connection", Some("agent-secret")),
    );

    assert_eq!(response.status(), 200);
    match response {
        ConfigAnswer::Served(runtime) => {
            assert_eq!(runtime.storage.interval_seconds, 30);
            assert_eq!(runtime.storage.mounts, ["/", "/var/lib/docker"]);
        }
        _ => panic!("runtime config should be served"),
    }
}

const OVERRIDDEN_HOST: &str = r#"
            [agents."agent-1"]
            hostname = "prod-vps-1"
            config_token = "agent-secret"

            [hosts."prod-vps-1".storage]
            interval_seconds = 30
            mounts = ["/", "/var/lib/docker"]
            "#;

#[test]
fn agent_config_rejects_session_mismatch() {
    let mut state = test_state(OVERRIDDEN_HOST);
    connect_test_agent(&mut state, "agent-1", "prod-vps-1");

    let response = answer(
        &state,
        &agent_headers("agent-1", "other-connection", Some("agent-secret")),
    );

    assert_eq!(response.status(), 403);
}

#[test]
fn agent_config_rejects_unenrolled_host_override() {
    let mut state = test_state(
        r#"
            [hosts."prod-vps-1".storage]
            interval_seconds = 30
            mounts = ["/", "/var/lib/docker"]
            "#,
    );
    connect_test_agent(&mut state, "agent-1", "prod-vps-1");

    let response = answer(
        &state,
        &agent_headers("agent-1", "test-connection", Some("agent-secret")),
    );

    assert_eq!(response.status(), 403);
}

#[test]
fn agent_config_rejects_missing_config_token_for_host_override() {
    let mut state = test_state(OVERRIDDEN_HOST);
    connect_test_agent(&mut state, "agent-1", "prod-vps-1");

    let response = answer(&state, &agent_headers("agent-1", "test-connection", None));

    assert_eq!(response.status(), 403);
}

#[test]
fn agent_config_rejects_wrong_config_token_for_host_override() {
    let mut state = test_state(OVERRIDDEN_HOST);
    connect_test_agent(&mut state, "agent-1", "prod-vps-1");

    let response = answer(
        &state,
        &agent_headers("agent-1", "test-connection", Some("wrong-secret")),
    );

    assert_eq!(response.status(), 403);
}

#[test]
fn agent_config_tells_bad_requests_from_unauthorized_ones() {
    let mut state = test_state(OVERRIDDEN_HOST);
    connect_test_agent(&mut state, "agent-1", "prod-vps-1");

    assert_eq!(answer(&state, &HeaderMap::new()).status(), 401);
    assert_eq!(answer(&state, &bearer("admin-token")).status(), 401);
    assert_eq!(answer(&state, &bearer("agent-token")).status(), 400);
    let mut without_session = bearer("agent-token");
    without_session.insert(AGENT_ID_HEADER, HeaderValue::from_static("agent-1"));
    assert_eq!(answer(&state, &without_session).status(), 400);
}

#[test]
fn agent_config_reports_an_invalid_host_config() {
    let mut state = test_state(
        r#"
            [agents."agent-1"]
            hostname = "host-1"
            config_token = "agent-secret"

            [hosts."host-1".cpu]
            interval_seconds = 0
            "#,
    );
    connect_test_agent(&mut state, "agent-1", "host-1");

    let response = answer(
        &state,
        &agent_headers("agent-1", "test-connection", Some("agent-secret")),
    );

    assert_eq!(response.status(), 500);
    assert!(matches!(
        response,
        ConfigAnswer::Invalid(ConfigError::EmptyCpuInterval)
    ));
}

#[test]
fn agent_hello_rejects_duplicate_agent_id() {
    let mut state = test_state(
        r#"
            [agents."agent-1"]
            hostname = "host-1"
            config_token = "agent-secret"
            "#,
    );
    connect_test_agent_with_connection(&mut state, "agent-1", "host-1", "existing-connection");
    let mut session = session("new-connection", Some("agent-secret"));

    let result = state.agents.register_agent_connection(
        &state.config.config,
        &mut session,
        test_hello("agent-1", "host-1"),
        2,
    );

    assert!(result.is_none());
    assert_eq!(session.current_agent_id, None);
    assert_eq!(
        state
            .agents
            .agents
            .get("agent-1")
            .map(|agent| agent.connection_id.as_str()),
        Some("existing-connection")
    );
}

#[test]
fn agent_hello_rejects_unenrolled_agent_id() {
    let mut state = test_state("");
    let mut session = session("test-connection", Some("agent-secret"));

    let result = state.agents.register_agent_connection(
        &state.config.config,
        &mut session,
        test_hello("agent-1", "host-1"),
        2,
    );

    assert!(result.is_none());
    assert_eq!(session.current_agent_id, None);
    assert!(!state.agents.agents.contains_key("agent-1"));
}

#[test]
fn agent_hello_requires_config_token_for_host_override() {
    let mut state = test_state(OVERRIDDEN_HOST);
    let mut session = session("test-connection", None);

    let result = state.agents.register_agent_connection(
        &state.config.config,
        &mut session,
        test_hello("agent-1", "prod-vps-1"),
        2,
    );

    assert!(result.is_none());
    assert_eq!(session.current_agent_id, None);
    assert!(!state.agents.agents.contains_key("agent-1"));
}

#[test]
fn agent_hello_accepts_config_token_for_host_override() {
    let mut state = test_state(OVERRIDDEN_HOST);
    let mut session = session("test-connection", Some("agent-secret"));

    let result = state.agents.register_agent_connection(
        &state.config.config,
        &mut session,
        test_hello("agent-1", "prod-vps-1"),
        2,
    );

    assert!(result.is_some());
    assert_eq!(session.current_agent_id.as_deref(), Some("agent-1"));
    assert_eq!(
        state
            .agents
            .agents
            .get("agent-1")
            .map(|agent| agent.connection_id.as_str()),
        Some("test-connection")
    );
}

const TWO_AGENTS: &str = r#"
            [agents."agent-1"]
            hostname = "host-1"
            config_token = "secret"

            [agents."agent-2"]
            hostname = "host-2"
            config_token = "secret"
            "#;

#[test]
fn second_hello_on_a_session_replaces_the_first() {
    let mut state = test_state(TWO_AGENTS);
    let mut session = session("c", Some("secret"));
    let config = &state.config.config;

    assert_eq!(
        state
            .agents
            .register_agent_connection(config, &mut session, test_hello("agent-1", "host-1"), 10),
        Some(10)
    );
    assert_eq!(
        state
            .agents
            .register_agent_connection(config, &mut session, test_hello("agent-2", "host-2"), 11),
        Some(11)
    );

    let ids: Vec<String> = state
        .agents
        .connected_agents()
        .into_iter()
        .map(|agent| agent.agent_id)
        .collect();
    assert_eq!(ids, ["agent-2"]);
    state.agents.remove_agent(&session);
    assert!(state.agents.connected_agents().is_empty());
}

#[test]
fn ended_session_leaves_other_sessions_alone() {
    let mut state = test_state(TWO_AGENTS);
    connect_test_agent_with_connection(&mut state, "agent-1", "host-1", "one");
    connect_test_agent_with_connection(&mut state, "agent-2", "host-2", "two");

    let stale = Session {
        connection_id: "old".to_string(),
        current_agent_id: Some("agent-1".to_string()),
        agent_config_token: None,
    };
    state.agents.remove_agent(&stale);
    assert_eq!(state.agents.agents.len(), 2);

    let own = Session {
        connection_id: "one".to_string(),
        current_agent_id: Some("agent-1".to_string()),
        agent_config_token: None,
    };
    state.agents.remove_agent(&own);
    assert!(!state.agents.agents.contains_key("agent-1"));
    assert!(state.agents.agents.contains_key("agent-2"));
}

fn heartbeat(agent_id: &str) -> AgentControlMessage {
    AgentControlMessage::Heartbeat {
        agent_id: agent_id.to_string(),
        hostname: "renamed".to_string(),
        agent_version: "2".to_string(),
        config_version: "cfg-1".to_string(),
        enabled_collectors: vec!["cpu".to_string()],
    }
}

#[test]
fn heartbeat_updates_only_the_bound_agent() {
    let mut state = test_state(TWO_AGENTS);
    connect_test_agent_with_connection(&mut state, "agent-2", "host-2", "other");
    let mut session = session("c", Some("secret"));
    let config = &state.config.config;
    let hello = AgentControlMessage::Hello {
        agent_id: "agent-1".to_string(),
        hostname: "host-1".to_string(),
        agent_version: "1".to_string(),
        boot_id: Some("boot".to_string()),
    };

    // Before the hello nothing is taken in.
    let early = state
        .agents
        .handle_agent_message(config, &mut session, heartbeat("agent-1"), 5);
    assert!(matches!(early, Reply::Nothing));
    assert!(!state.agents.agents.contains_key("agent-1"));

    match state.agents.handle_agent_message(config, &mut session, hello, 6) {
        Reply::Send(ServerControlMessage::HelloAck {
            server_time_unix_seconds,
            config_session_id,
        }) => {
            assert_eq!(server_time_unix_seconds, 6);
            assert_eq!(config_session_id, "c");
        }
        _ => panic!("hello should be acknowledged"),
    }
    state
        .agents
        .handle_agent_message(config, &mut session, heartbeat("agent-1"), 7);
    state
        .agents
        .handle_agent_message(config, &mut session, heartbeat("agent-2"), 8);

    let first = state.agents.agents.get("agent-1").expect("connected");
    assert_eq!(first.hostname, "renamed");
    assert_eq!(first.agent_version, "2");
    assert_eq!(first.boot_id.as_deref(), Some("boot"));
    assert_eq!(first.config_version.as_deref(), Some("cfg-1"));
    assert_eq!(first.enabled_collectors, ["cpu"]);
    assert_eq!(first.connected_at_unix_seconds, 6);
    assert_eq!(first.last_seen_unix_seconds, 7);
    let second = state.agents.agents.get("agent-2").expect("connected");
    assert_eq!(second.hostname, "host-2");
    assert_eq!(second.last_seen_unix_seconds, 1);
}

#[test]
fn refused_hello_closes_the_sender() {
    let mut state = test_state("");
    let mut session = session("c", None);
    let hello = AgentControlMessage::Hello {
        agent_id: "agent-1".to_string(),
        hostname: "host-1".to_string(),
        agent_version: "1".to_string(),
        boot_id: None,
    };

    let step = session_step(
        &mut state.agents,
        &state.config.config,
        &mut session,
        SessionEvent::Message(hello),
        1,
    );

    assert!(matches!(step, SessionStep::CloseSender));
}

#[test]
fn session_events_decide_the_next_step() {
    let mut state = test_state("");
    let mut session = session("c", None);
    let mut step = |event| {
        session_step(
            &mut state.agents,
            &state.config.config,
            &mut session,
            event,
            1,
        )
    };

    let notification = ServerControlMessage::ConfigChanged {
        version: "v".to_string(),
    };
    match step(SessionEvent::Notification(notification)) {
        SessionStep::Send(message) => assert_eq!(
            message,
            ServerControlMessage::ConfigChanged {
                version: "v".to_string()
            }
        ),
        _ => panic!("notification should be sent"),
    }
    assert!(matches!(
        step(SessionEvent::NotificationsMissed),
        SessionStep::Continue
    ));
    assert!(matches!(
        step(SessionEvent::OtherFrame),
        SessionStep::Continue
    ));
    assert!(matches!(
        step(SessionEvent::NotificationsEnded),
        SessionStep::Finish
    ));
    assert!(matches!(step(SessionEvent::Closed), SessionStep::Finish));
    assert!(matches!(
        step(SessionEvent::UnknownText),
        SessionStep::FailUnknownText
    ));
    assert!(matches!(
        step(SessionEvent::ReadFailed),
        SessionStep::FailRead
    ));
}

#[test]
fn opened_sessions_have_random_ids_of_their_own() {
    let mut headers = bearer("agent-token");
    headers.insert(
        AGENT_CONFIG_TOKEN_HEADER,
        HeaderValue::from_static(" agent-secret "),
    );

    let one = open_session(&headers, "agent-token").expect("authorized");
    let two = open_session(&headers, "agent-token").expect("authorized");

    assert!(open_session(&bearer("x"), "agent-token").is_none());
    assert_eq!(one.agent_config_token.as_deref(), Some("agent-secret"));
    assert_eq!(one.current_agent_id, None);
    assert_ne!(one.connection_id, two.connection_id);
    for id in [one.connection_id, two.connection_id] {
        let groups: Vec<usize> = id.split('-').map(str::len).collect();
        assert_eq!(groups, [8, 4, 4, 4, 12]);
        assert_eq!(&id[14..15], "4");
        assert!(id.chars().all(|c| c == '-' || matches!(c, '0'..='9' | 'a'..='f')));
    }
}

#[test]
fn admins_see_agents_in_the_order_of_their_ids() {
    let mut state = test_state("");
    for id in ["b", "a\u{e9}", "a", "Z"] {
        connect_test_agent(&mut state, id, "h");
    }

    let listed = admin_agents(&bearer("admin-token"), state.admin_token, &state.agents)
        .expect("authorized");

    let ids: Vec<&str> = listed.iter().map(|agent| agent.agent_id.as_str()).collect();
    assert_eq!(ids, ["Z", "a", "a\u{e9}", "b"]);
    assert!(admin_agents(&bearer("agent-token"), state.admin_token, &state.agents).is_none());
}

#[test]
fn admin_reload_rejects_invalid_runtime_config_without_swapping() {
    let invalid = r#"
            [defaults.agent]
            heartbeat_interval_seconds = 0
            "#;
    let mut state = test_state(
        r#"
            [defaults.storage]
            interval_seconds = 45
            mounts = ["/"]
            "#,
    );

    let response = admin_config_reload(
        &bearer("admin-token"),
        state.admin_token,
        &mut state.config,
        Ok(Some((invalid.to_string(), control_config(invalid)))),
        &state.agents,
    );

    assert_eq!(response.status(), 500);
    let runtime = state
        .config
        .config
        .runtime_config_for("host-1")
        .expect("active runtime config should remain valid");
    assert_eq!(runtime.storage.interval_seconds, 45);
}

#[test]
fn admin_reload_swaps_and_notifies() {
    let mut state = test_state("");
    connect_test_agent(&mut state, "agent-1", "host-1");
    let contents = "[defaults.cpu]\nenabled = true\n";

    let (response, notification) = reload_control_config(
        &mut state.config,
        Some((contents.to_string(), control_config(contents))),
        &state.agents,
    )
    .expect("valid");

    assert_eq!(response.version, config_source_version(contents));
    assert_eq!(response.notified_agents, 1);
    assert_eq!(
        notification,
        ServerControlMessage::ConfigChanged {
            version: config_source_version(contents)
        }
    );
    assert_eq!(state.config.source_version, config_source_version(contents));
    assert!(
        state
            .config
            .config
            .runtime_config_for("any")
            .expect("valid")
            .cpu
            .enabled
    );
}

#[test]
fn reload_counts_the_connected_agents() {
    let mut state = test_state("");
    let mut counted = Vec::new();

    for id in ["b", "a", "b", "c"] {
        let answer = admin_config_reload(
            &bearer("admin-token"),
            state.admin_token,
            &mut state.config,
            Ok(None),
            &state.agents,
        );
        match answer {
            ReloadAnswer::Reloaded { response, .. } => counted.push(response.notified_agents),
            other => panic!("unexpected answer: {other:?}"),
        }
        connect_test_agent(&mut state, id, "h");
    }

    assert_eq!(counted, [0, 1, 2, 2]);
}

#[test]
fn reload_is_for_admins_and_readable_files() {
    let mut state = test_state("");
    let contents = "[defaults.cpu]\nenabled = true\n";
    let source = || Ok(Some((contents.to_string(), control_config(contents))));

    for (headers, source, status) in [
        (bearer("agent-token"), source(), 401),
        (HeaderMap::new(), source(), 401),
        (bearer("admin-token"), Err("no such file".to_string()), 500),
    ] {
        let answer = admin_config_reload(
            &headers,
            state.admin_token,
            &mut state.config,
            source,
            &state.agents,
        );
        assert_eq!(answer.status(), status);
        assert_eq!(state.config.source_version, config_source_version(""));
    }
    let answer = admin_config_reload(
        &bearer("admin-token"),
        state.admin_token,
        &mut state.config,
        source(),
        &state.agents,
    );
    assert_eq!(answer.status(), 200);
    assert_eq!(state.config.source_version, config_source_version(contents));
}

#[test]
fn loading_checks_every_named_host() {
    let config = control_config(
        "[hosts.\"a\".cpu]\ninterval_seconds = 5\n[hosts.\"b\".cpu]\ninterval_seconds = 0\n",
    );

    let error = validate_runtime_configs(&config).expect_err("host b is invalid");

    assert!(matches!(
        &error,
        InvalidRuntime::Host { hostname, error: ConfigError::EmptyCpuInterval } if hostname == "b"
    ));
    assert_eq!(
        error.message(),
        "invalid runtime config for host b: cpu interval must be greater than zero"
    );
    let defaults = control_config("[defaults.storage]\nmounts = []\n");
    let error = validate_runtime_configs(&defaults).expect_err("defaults are invalid");
    assert_eq!(
        error.message(),
        "invalid default runtime config: storage collector is enabled but no mounts are configured"
    );
    let loaded = load_control_config(None).expect("default config is valid");
    assert_eq!(loaded.source_version, "source-cbf29ce484222325");
}
