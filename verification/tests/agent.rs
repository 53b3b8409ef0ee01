//! The agent's own decisions.

use talia::agent::session::{
    apply_fetched, config_request, config_response, control_ended, control_session_headers,
    control_step, heartbeat_message, hello_message, opening_messages, refresh_with_current_session,
    ConfigResponse, ControlEvent, ControlStep, RefreshOutcome, ServerMessageStep,
};
use talia::agent::startup::{
    accept_bootstrap, control_client_config, initial_runtime_config, last_known_config_path,
    ControlClientConfig,
};
use talia::agent::timing::{
    heartbeat_interval, jittered_interval, jittered_interval_checked, Backoff,
};
use talia::config::bootstrap::AgentBootstrapConfig;
use talia::config::error::ConfigError;
use talia::config::runtime::AgentRuntimeConfig;
use talia::control::{AgentControlMessage, ServerControlMessage};
use talia::identity::{load_or_create_agent_id, read_boot_id, AgentIdentity, IdentityError};
use talia::path::join_path;
use talia::runner::{
    check_report, collector_spec, collector_specs, enabled_collectors, query_next, query_start,
    Collector, CollectorRun, CollectorStep, QueryStep,
};
use talia::time::Duration;

#[test]
fn jitter_stays_within_ten_percent() {
    let base = 900;

    let interval = jittered_interval(base, "agent-1");

    assert!(interval >= Duration::from_secs(810));
    assert!(interval <= Duration::from_secs(990));
}

#[test]
fn jitter_is_exact_for_an_agent() {
    assert_eq!(jittered_interval(900, "agent-1"), Duration::from_secs(925));
    assert_eq!(jittered_interval(9, "agent-1"), Duration::from_secs(9));
    assert_eq!(jittered_interval(0, "agent-1"), Duration::from_secs(0));
    assert_eq!(
        jittered_interval_checked(900, "agent-1"),
        Some(Duration::from_secs(925))
    );
    assert_eq!(jittered_interval_checked(u64::MAX, "agent-10"), None);
}

#[test]
fn enabled_collectors_reports_storage_only_when_enabled() {
    let mut config = AgentRuntimeConfig::default();
    config.storage.enabled = false;
    config.memory.enabled = false;
    config.cpu.enabled = false;

    let disabled = enabled_collectors(&config);
    config.storage.enabled = true;
    config.memory.enabled = false;
    let enabled = enabled_collectors(&config);

    assert!(disabled.is_empty());
    assert_eq!(enabled, ["storage"]);
}

#[test]
fn enabled_collectors_reports_cpu_when_enabled() {
    let mut config = AgentRuntimeConfig::default();
    config.storage.enabled = false;
    config.memory.enabled = false;
    config.cpu.enabled = true;

    let enabled = enabled_collectors(&config);

    assert_eq!(enabled, ["cpu"]);
}

#[test]
fn enabled_collectors_reports_memory_when_enabled() {
    let mut config = AgentRuntimeConfig::default();
    config.storage.enabled = false;
    config.memory.enabled = true;

    let enabled = enabled_collectors(&config);

    assert_eq!(enabled, ["memory"]);
}

#[test]
fn enabled_collectors_reports_network_when_enabled() {
    let mut config = AgentRuntimeConfig::default();
    config.storage.enabled = false;
    config.memory.enabled = false;
    config.network.enabled = true;

    let enabled = enabled_collectors(&config);

    assert_eq!(enabled, ["network"]);
}

#[test]
fn enabled_collectors_reports_disk_io_when_enabled() {
    let mut config = AgentRuntimeConfig::default();
    config.storage.enabled = false;
    config.memory.enabled = false;
    config.disk_io.enabled = true;

    let enabled = enabled_collectors(&config);

    assert_eq!(enabled, ["disk_io"]);
}

#[test]
fn registry_lists_every_provider_once() {
    let names: Vec<_> = collector_specs().iter().map(|spec| spec.name).collect();
    assert_eq!(names, ["storage", "memory", "cpu", "network", "disk_io"]);
}

#[test]
fn enabled_collectors_keep_the_order_of_the_registry() {
    let mut config = AgentRuntimeConfig::default();
    config.cpu.enabled = true;
    config.network.enabled = true;
    config.disk_io.enabled = true;

    assert_eq!(
        enabled_collectors(&config),
        ["storage", "memory", "cpu", "network", "disk_io"]
    );
}

#[test]
fn collectors_are_found_by_name() {
    let spec = collector_spec("network").expect("known");
    assert_eq!(spec.collector, Collector::Network);
    assert!(spec.sleep_before_collect);
    assert!(!collector_spec("memory").expect("known").sleep_before_collect);

    assert_eq!(
        collector_spec("gpu").expect_err("unknown"),
        "unknown provider 'gpu'; known providers: storage, memory, cpu, network, disk_io"
    );
}

#[test]
fn schedules_follow_the_config() {
    let mut config = AgentRuntimeConfig::default();
    config.disk_io.interval_seconds = 7;

    let storage = collector_spec("storage").expect("known").schedule(&config);
    let disk_io = collector_spec("disk_io").expect("known").schedule(&config);

    assert_eq!(storage, (true, Duration::from_secs(60)));
    assert_eq!(disk_io, (false, Duration::from_secs(7)));
}

#[test]
fn collector_loop_loads_once_and_stops_when_disabled() {
    let mut config = AgentRuntimeConfig::default();
    let spec = collector_spec("cpu").expect("known");
    let second = Duration::from_secs(1);
    let mut run = CollectorRun::new();

    assert_eq!(
        run.start_round(&spec, &config),
        CollectorStep::Idle { stop: false, announce: true, sleep: second }
    );
    assert_eq!(
        run.start_round(&spec, &config),
        CollectorStep::Idle { stop: false, announce: false, sleep: second }
    );
    config.cpu.enabled = true;
    assert_eq!(
        run.start_round(&spec, &config),
        CollectorStep::Load { window: second }
    );
    assert_eq!(
        run.load_finished(&spec, second, false),
        CollectorStep::Retry { sleep: second }
    );
    assert_eq!(
        run.start_round(&spec, &config),
        CollectorStep::Load { window: second }
    );
    assert_eq!(
        run.load_finished(&spec, second, true),
        CollectorStep::Collect { window: second, sleep_first: true }
    );
    assert_eq!(
        run.start_round(&spec, &config),
        CollectorStep::Collect { window: second, sleep_first: true }
    );
    config.cpu.enabled = false;
    assert_eq!(
        run.start_round(&spec, &config),
        CollectorStep::Idle { stop: true, announce: true, sleep: second }
    );
}

#[test]
fn queries_end_after_their_duration() {
    let interval = Duration::from_secs(5);
    let cpu = collector_spec("cpu").expect("known");
    let memory = collector_spec("memory").expect("known");

    assert_eq!(query_start(&cpu, interval), Some(interval));
    assert_eq!(query_start(&memory, interval), None);
    assert_eq!(
        query_next(interval, Duration::from_secs(29), Duration::from_secs(30)),
        QueryStep::SleepThenCollect(interval)
    );
    assert_eq!(
        query_next(interval, Duration::from_secs(30), Duration::from_secs(30)),
        QueryStep::Finish
    );
    assert_eq!(
        check_report("cpu", 12),
        "ok: provider 'cpu' returned 12 samples"
    );
}

#[test]
fn backoff_doubles_up_to_a_minute_and_starts_anew() {
    let mut backoff = Backoff::new();
    let mut session = Some("s".to_string());

    let mut waits = Vec::new();
    for closed in [false, false, false, false, false, false, true, false] {
        waits.push(control_ended(&mut session, &mut backoff, closed));
    }

    let expected: Vec<Duration> = [5, 10, 20, 40, 60, 60, 5, 10]
        .into_iter()
        .map(Duration::from_secs)
        .collect();
    assert_eq!(waits, expected);
    assert_eq!(session, None);
}

#[test]
fn heartbeats_follow_the_config() {
    let mut config = AgentRuntimeConfig::default();
    assert_eq!(heartbeat_interval(&config), Duration::from_secs(60));
    config.agent.heartbeat_interval_seconds = 3;
    assert_eq!(heartbeat_interval(&config), Duration::from_secs(3));
}

fn identity() -> AgentIdentity {
    AgentIdentity {
        agent_id: "agent-1".to_string(),
        hostname: "host-1".to_string(),
        boot_id: Some("boot-1".to_string()),
    }
}

#[test]
fn agent_introduces_itself_and_reports() {
    let config = AgentRuntimeConfig::default();

    let (hello, heartbeat) = opening_messages(&identity(), "0.1.2", &config);

    assert_eq!(
        hello,
        AgentControlMessage::Hello {
            agent_id: "agent-1".to_string(),
            hostname: "host-1".to_string(),
            agent_version: "0.1.2".to_string(),
            boot_id: Some("boot-1".to_string()),
        }
    );
    assert_eq!(
        heartbeat,
        AgentControlMessage::Heartbeat {
            agent_id: "agent-1".to_string(),
            hostname: "host-1".to_string(),
            agent_version: "0.1.2".to_string(),
            config_version: "local".to_string(),
            enabled_collectors: vec!["storage".to_string(), "memory".to_string()],
        }
    );
    assert_eq!(hello, hello_message(&identity(), "0.1.2"));
    assert_eq!(heartbeat, heartbeat_message(&identity(), "0.1.2", &config));
}

#[test]
fn server_messages_lead_to_fetches() {
    let mut session = None;
    let changed = || {
        ControlEvent::Message(ServerControlMessage::ConfigChanged {
            version: "v".to_string(),
        })
    };

    assert!(matches!(
        control_step(&mut session, changed()),
        ControlStep::Continue
    ));
    let ack = ControlEvent::Message(ServerControlMessage::HelloAck {
        server_time_unix_seconds: 1,
        config_session_id: "s-1".to_string(),
    });
    assert!(matches!(
        control_step(&mut session, ack),
        ControlStep::Refresh { config_session_id } if config_session_id == "s-1"
    ));
    assert_eq!(session.as_deref(), Some("s-1"));
    assert!(matches!(
        control_step(&mut session, changed()),
        ControlStep::Refresh { config_session_id } if config_session_id == "s-1"
    ));
    assert!(matches!(
        refresh_with_current_session(&session),
        ServerMessageStep::Refresh { config_session_id } if config_session_id == "s-1"
    ));
    assert!(matches!(
        refresh_with_current_session(&None),
        ServerMessageStep::NoSession
    ));
    assert!(matches!(
        control_step(&mut session, ControlEvent::HeartbeatDue),
        ControlStep::SendHeartbeat
    ));
    assert!(matches!(
        control_step(&mut session, ControlEvent::OtherFrame),
        ControlStep::Continue
    ));
    assert!(matches!(
        control_step(&mut session, ControlEvent::Ended),
        ControlStep::Finish
    ));
    assert!(matches!(
        control_step(&mut session, ControlEvent::UnknownText),
        ControlStep::FailUnknownText
    ));
    assert!(matches!(
        control_step(&mut session, ControlEvent::ReadFailed),
        ControlStep::FailRead
    ));
}

fn control(http_url: &str, credential: Option<&str>) -> ControlClientConfig {
    ControlClientConfig {
        http_url: http_url.to_string(),
        ws_url: "ws://localhost/agent/control".to_string(),
        token: "token".to_string(),
        agent_config_token: credential.map(ToString::to_string),
    }
}

#[test]
fn config_requests_carry_who_asks() {
    let request = config_request(&control("http://c:1//", Some(" secret ")), &identity(), "s-1");

    assert_eq!(request.url, "http://c:1/agent/config");
    let headers: Vec<(&str, &str)> = request
        .headers
        .iter()
        .map(|header| (header.name, header.value.as_str()))
        .collect();
    assert_eq!(
        headers,
        [
            ("authorization", "Bearer token"),
            ("x-talia-agent-id", "agent-1"),
            ("x-talia-config-session-id", "s-1"),
            ("x-talia-agent-config-token", "secret"),
        ]
    );

    let plain = config_request(&control("http://c", Some("  ")), &identity(), "s-1");
    assert_eq!(plain.url, "http://c/agent/config");
    assert_eq!(plain.headers.len(), 3);
    assert_eq!(control_session_headers(&control("http://c", None)).len(), 1);
    let opened = control_session_headers(&control("http://c", Some("x")));
    assert_eq!(opened[1].name, "x-talia-agent-config-token");
    assert_eq!(opened[1].value, "x");
}

#[test]
fn agent_requests_are_read_back_by_the_server() {
    let request = config_request(&control("http://c", Some("secret")), &identity(), "s-1");
    let mut headers = axum::http::HeaderMap::new();
    for header in &request.headers {
        headers.append(
            header.name,
            axum::http::HeaderValue::from_str(&header.value).expect("header value"),
        );
    }

    assert!(talia::headers::authorized(&headers, "token"));
    for (name, value) in [
        ("x-talia-agent-id", "agent-1"),
        ("x-talia-config-session-id", "s-1"),
        ("x-talia-agent-config-token", "secret"),
    ] {
        assert_eq!(
            talia::headers::header_value(&headers, name).as_deref(),
            Some(value)
        );
    }
}

#[test]
fn response_statuses_are_told_apart() {
    assert_eq!(config_response(401), ConfigResponse::TokenRejected);
    for status in [400, 403, 404, 499, 500, 503, 599] {
        assert_eq!(config_response(status), ConfigResponse::ServerError);
    }
    for status in [200, 204, 304, 600] {
        assert_eq!(config_response(status), ConfigResponse::Config);
    }
}

#[test]
fn only_valid_configs_are_applied() {
    let mut current = AgentRuntimeConfig::default();

    let mut invalid = AgentRuntimeConfig::default();
    invalid.cpu.interval_seconds = 0;
    invalid.version = "bad".to_string();
    assert!(matches!(
        apply_fetched(&mut current, Some(invalid)),
        RefreshOutcome::Invalid(ConfigError::EmptyCpuInterval)
    ));
    assert_eq!(current.version, "local");
    assert!(matches!(
        apply_fetched(&mut current, None),
        RefreshOutcome::FetchFailed
    ));
    assert_eq!(current.version, "local");

    let mut valid = AgentRuntimeConfig::default();
    valid.version = "cfg-2".to_string();
    assert!(matches!(
        apply_fetched(&mut current, Some(valid)),
        RefreshOutcome::Applied
    ));
    assert_eq!(current.version, "cfg-2");
}

#[test]
fn environment_secrets_come_before_those_of_the_file() {
    let bootstrap = AgentBootstrapConfig {
        control_token: Some("file".to_string()),
        agent_config_token: Some("file".to_string()),
        ..AgentBootstrapConfig::default()
    };

    let accepted = accept_bootstrap(bootstrap, Some("env".to_string()), None).expect("valid");

    assert_eq!(accepted.control_token.as_deref(), Some("env"));
    assert_eq!(accepted.agent_config_token.as_deref(), Some("file"));

    let insecure = AgentBootstrapConfig {
        control_http_url: "http://example.test".to_string(),
        ..AgentBootstrapConfig::default()
    };
    assert!(accept_bootstrap(insecure, None, None).is_err());
}

#[test]
fn agents_without_a_token_stay_local() {
    let mut bootstrap = AgentBootstrapConfig::default();
    assert!(control_client_config(&bootstrap).is_none());
    bootstrap.control_token = Some("  ".to_string());
    assert!(control_client_config(&bootstrap).is_none());
    bootstrap.control_token = Some(" t ".to_string());
    let control = control_client_config(&bootstrap).expect("token");
    assert_eq!(control.token, " t ");
    assert_eq!(control.http_url, "http://127.0.0.1:3501");
    assert_eq!(control.ws_url, "ws://127.0.0.1:3501/agent/control");
}

#[test]
fn last_known_config_is_used_when_it_is_valid() {
    let bootstrap = AgentBootstrapConfig::default();
    let mut last = AgentRuntimeConfig::default();
    last.version = "cfg-1".to_string();

    assert_eq!(
        initial_runtime_config(&bootstrap, Some(last.clone())).version,
        "cfg-1"
    );
    last.memory.interval_seconds = 0;
    assert_eq!(
        initial_runtime_config(&bootstrap, Some(last)).version,
        "local"
    );
    assert_eq!(initial_runtime_config(&bootstrap, None).version, "local");
}

#[test]
fn state_files_stand_in_the_state_directory() {
    assert_eq!(
        last_known_config_path("/var/lib/talia"),
        "/var/lib/talia/last-config.json"
    );
    assert_eq!(join_path("/var/lib/talia/", "agent-id"), "/var/lib/talia/agent-id");
    assert_eq!(join_path("", "agent-id"), "agent-id");
}

#[test]
fn stored_agent_id_is_found_again() {
    let created = load_or_create_agent_id("/s/agent-id", None).expect("created");
    let stored = created.to_store.expect("to be stored");
    assert_eq!(stored, format!("{}\n", created.agent_id));
    assert_eq!(created.agent_id.len(), 36);

    let loaded = load_or_create_agent_id("/s/agent-id", Some(&stored)).expect("loaded");
    assert_eq!(loaded.agent_id, created.agent_id);
    assert_eq!(loaded.to_store, None);

    let error = load_or_create_agent_id("/s/agent-id", Some(" \n")).expect_err("empty");
    assert_eq!(
        error,
        IdentityError::EmptyAgentId {
            path: "/s/agent-id".to_string()
        }
    );
    assert_eq!(error.message(), "agent id file /s/agent-id is empty");
}

#[test]
fn identity_messages_name_the_path() {
    let of = |make: fn(String, String) -> IdentityError| {
        make("/p".to_string(), "denied".to_string()).message()
    };
    assert_eq!(
        of(|path, source| IdentityError::CreateStateDir { path, source }),
        "failed to create state directory /p: denied"
    );
    assert_eq!(
        of(|path, source| IdentityError::ReadAgentId { path, source }),
        "failed to read agent id from /p: denied"
    );
    assert_eq!(
        of(|path, source| IdentityError::WriteAgentId { path, source }),
        "failed to write agent id to /p: denied"
    );
}

#[test]
fn boot_id_is_trimmed() {
    assert_eq!(read_boot_id(Some("abc\n")), Some("abc".to_string()));
    assert_eq!(read_boot_id(Some("\n")), None);
    assert_eq!(read_boot_id(None), None);
}
