//! What agents and control servers rely on in each other, from end to end.

use axum::http::{HeaderMap, HeaderValue};
use talia::agent::session::{
    config_request, control_session_headers, control_step, opening_messages, ControlEvent,
    ControlStep, RequestHeader,
};
use talia::agent::startup::ControlClientConfig;
use talia::config::control_file::{AgentEnrollment, ControlConfigFile};
use talia::config::runtime::AgentRuntimeConfig;
use talia::control::ServerControlMessage;
use talia::identity::AgentIdentity;
use talia::modules::cpu::{CpuCollector, RawCpuCounters};
use talia::modules::memory::{
    memory_samples, parse_kib_fields, parse_vmstat_swap, sample_from_proc, MemInfo, SwapCounters,
};
use talia::modules::network::{
    NetworkCollector, NetworkReading, RawNetworkCounters, RawNetworkKey,
};
use talia::server::registry::{AgentRegistry, Session};
use talia::server::service::{
    agent_config, answer_request, open_session, session_step, ConfigAnswer, SessionEvent,
    SessionStep,
};
use talia::sinks::otlp::export;
use talia::time::{Duration, Timestamp};

fn sent(headers: &[RequestHeader]) -> HeaderMap {
    let mut map = HeaderMap::new();
    for header in headers {
        let value = HeaderValue::from_str(&header.value).expect("header value");
        map.append(header.name, value);
    }
    map
}

fn control() -> ControlClientConfig {
    ControlClientConfig {
        http_url: "https://control.test/".to_string(),
        ws_url: "wss://control.test/agent/control".to_string(),
        token: "server token".to_string(),
        agent_config_token: Some("\tagent secret ".to_string()),
    }
}

fn identity() -> AgentIdentity {
    AgentIdentity {
        agent_id: "agent-1".to_string(),
        hostname: "host-1".to_string(),
        boot_id: None,
    }
}

fn enrolled() -> ControlConfigFile {
    let mut config = ControlConfigFile::default();
    config.agents.insert(
        "agent-1".to_string(),
        AgentEnrollment {
            hostname: "host-1".to_string(),
            config_token: Some("agent secret".to_string()),
        },
    );
    config
}

#[test]
fn accepted_agent_is_served_until_its_session_ends() {
    let config = enrolled();
    let mut registry = AgentRegistry::new();
    let mut agent_session: Option<String> = None;

    let mut session: Session = open_session(
        &sent(&control_session_headers(&control())),
        "server token",
    )
    .expect("session opened");
    let (hello, heartbeat) = opening_messages(&identity(), "1", &AgentRuntimeConfig::default());
    let reply = session_step(
        &mut registry,
        &config,
        &mut session,
        SessionEvent::Message(hello),
        7,
    );
    let SessionStep::Send(acknowledgement) = reply else {
        panic!("hello should be acknowledged");
    };
    let step = session_step(
        &mut registry,
        &config,
        &mut session,
        SessionEvent::Message(heartbeat),
        8,
    );
    assert!(matches!(step, SessionStep::Continue));
    let known = registry.connected_agents();
    assert_eq!(known.len(), 1);
    assert_eq!(known[0].enabled_collectors, ["storage", "memory"]);
    assert_eq!(known[0].config_version.as_deref(), Some("local"));
    assert_eq!(known[0].connected_at_unix_seconds, 7);
    assert_eq!(known[0].last_seen_unix_seconds, 8);

    let step = control_step(&mut agent_session, ControlEvent::Message(acknowledgement));
    let ControlStep::Refresh { config_session_id } = step else {
        panic!("the config should be fetched");
    };
    assert_eq!(config_session_id, session.connection_id);
    let request = config_request(&control(), &identity(), &config_session_id);
    let answer = agent_config(&sent(&request.headers), "server token", &registry, &config);
    let ConfigAnswer::Served(served) = answer else {
        panic!("the config should be served");
    };
    let expected = config.runtime_config_for("host-1").expect("valid");
    assert_eq!(served, expected);
    assert_eq!(served.validate(), Ok(()));

    registry.remove_agent(&session);
    assert!(registry.connected_agents().is_empty());
    let answer = agent_config(&sent(&request.headers), "server token", &registry, &config);
    assert!(matches!(answer, ConfigAnswer::Forbidden));
}

#[test]
fn requests_are_answered_from_what_was_read_of_them() {
    let config = enrolled();
    let registry = AgentRegistry::new();
    let text = |s: &str| Some(s.to_string());

    for (authorized, agent_id, session_id, status) in [
        (false, text("agent-1"), text("s"), 401),
        (true, None, text("s"), 400),
        (true, text("agent-1"), None, 400),
        (true, text("agent-1"), text("s"), 403),
    ] {
        let answer = answer_request(
            authorized,
            agent_id,
            session_id,
            text("agent secret"),
            &registry,
            &config,
        );
        assert_eq!(answer.status(), status);
    }
}

#[test]
fn config_changes_are_ignored_without_a_session() {
    let mut session = None;
    let changed = ServerControlMessage::ConfigChanged {
        version: "v".to_string(),
    };
    assert!(matches!(
        control_step(&mut session, ControlEvent::Message(changed)),
        ControlStep::Continue
    ));
}

#[test]
fn unchanged_counters_show_no_activity() {
    let counters = vec![RawCpuCounters {
        idle_ns: 5,
        user_ns: 6,
        system_ns: 7,
        ..RawCpuCounters::default()
    }];
    let mut collector = CpuCollector::new();
    let window = Duration::from_secs(1);

    collector.collect(&counters, window);
    let again = collector.collect(&counters, window);

    assert_eq!(again[0].total_ns(), 0);
}

fn network_reading(bytes: u64) -> Vec<NetworkReading> {
    vec![NetworkReading {
        key: RawNetworkKey {
            direction: 1,
            _pad: [0; 7],
        },
        counters: vec![RawNetworkCounters { bytes, packets: 0 }],
    }]
}

#[test]
fn readings_in_between_lose_nothing() {
    let window = Duration::from_secs(1);
    let mut often = NetworkCollector::new();
    let mut seldom = NetworkCollector::new();

    let first = often.collect(&network_reading(10), window).samples[0].bytes;
    let second = often.collect(&network_reading(25), window).samples[0].bytes;
    let whole = seldom.collect(&network_reading(25), window).samples[0].bytes;

    assert_eq!(first + second, whole);
}

#[test]
fn lines_without_a_field_do_not_matter() {
    let plain = parse_kib_fields("/x", "A: 1\nB: 2\n").expect("fields");
    let noisy = parse_kib_fields("/x", "\nA: 1\nnothing\nC:\n  \nB: 2\n").expect("fields");
    assert_eq!(plain, noisy);

    let plain = parse_vmstat_swap("pswpin 1\npswpout 2\n");
    let noisy = parse_vmstat_swap("pgpgin x\npswpin 1\n\npswpin\npswpout 2\nnr_free 3\n");
    assert_eq!(plain, noisy);
    assert!(plain.is_ok());
}

#[test]
fn every_memory_sample_is_exported_with_its_own_attributes() {
    let info = MemInfo {
        total_bytes: 10,
        available_bytes: 4,
        free_bytes: 3,
        cached_bytes: 2,
        swap_total_bytes: 8,
        swap_free_bytes: 8,
    };
    let swap = SwapCounters {
        in_pages: 1,
        out_pages: 1,
    };
    let samples = memory_samples(
        &sample_from_proc(info, swap, swap, 4096),
        Timestamp::default(),
    );

    for sample in &samples {
        let exported = export(sample, "v").expect("exported");
        assert_eq!(exported.instrument.name(), sample.name);
        assert_eq!(exported.value, sample.value);
        assert_eq!(exported.attributes.len(), sample.attributes.len() + 1);
        for i in 0..sample.attributes.len() {
            assert_eq!(&exported.attributes[i].key, sample.attributes.key_at(i));
            assert_eq!(&exported.attributes[i].value, sample.attributes.value_at(i));
        }
    }
}
