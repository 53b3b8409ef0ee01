//! Runtime and bootstrap configuration.

use talia::config::bootstrap::{validate_control_url, AgentBootstrapConfig};
use talia::config::error::ConfigError;
use talia::config::overrides::{
    AgentSettingsOverride, CpuConfigOverride, HostConfigOverride, StorageConfigOverride,
};
use talia::config::runtime::{
    AgentRuntimeConfig, AgentRuntimeSettings, CpuConfig, DiskIoConfig, MemoryConfig, NetworkConfig,
    StorageConfig,
};
use talia::config::version::{
    config_source_version, config_version, effective_config_version,
};

#[test]
fn enabled_storage_requires_absolute_mounts() {
    let config = AgentRuntimeConfig {
        storage: StorageConfig {
            mounts: vec!["var".to_string()],
            ..StorageConfig::default()
        },
        ..AgentRuntimeConfig::default()
    };

    let result = config.validate();

    assert!(matches!(
        result,
        Err(ConfigError::RelativeStorageMount(mount)) if mount == "var"
    ));
}

#[test]
fn cpu_interval_must_be_positive() {
    let config = AgentRuntimeConfig {
        cpu: CpuConfig {
            enabled: true,
            interval_seconds: 0,
        },
        ..AgentRuntimeConfig::default()
    };

    let result = config.validate();

    assert!(matches!(result, Err(ConfigError::EmptyCpuInterval)));
}

#[test]
fn memory_interval_must_be_positive() {
    let config = AgentRuntimeConfig {
        memory: MemoryConfig {
            enabled: true,
            interval_seconds: 0,
        },
        ..AgentRuntimeConfig::default()
    };

    let result = config.validate();

    assert!(matches!(result, Err(ConfigError::EmptyMemoryInterval)));
}

#[test]
fn network_interval_must_be_positive() {
    let config = AgentRuntimeConfig {
        network: NetworkConfig {
            enabled: true,
            interval_seconds: 0,
        },
        ..AgentRuntimeConfig::default()
    };

    let result = config.validate();

    assert!(matches!(result, Err(ConfigError::EmptyNetworkInterval)));
}

#[test]
fn disk_io_interval_must_be_positive() {
    let config = AgentRuntimeConfig {
        disk_io: DiskIoConfig {
            enabled: true,
            interval_seconds: 0,
        },
        ..AgentRuntimeConfig::default()
    };

    let result = config.validate();

    assert!(matches!(result, Err(ConfigError::EmptyDiskIoInterval)));
}

#[test]
fn bootstrap_config_allows_loopback_plaintext_control_urls() {
    let config = AgentBootstrapConfig {
        control_http_url: "http://127.0.0.1:3501".to_string(),
        control_ws_url: "ws://localhost:3501/agent/control".to_string(),
        ..AgentBootstrapConfig::default()
    };

    let result = config.validate();

    assert!(result.is_ok());
}

#[test]
fn bootstrap_config_rejects_remote_plaintext_control_urls() {
    let config = AgentBootstrapConfig {
        control_http_url: "http://control.example.test:3501".to_string(),
        control_ws_url: "wss://control.example.test/agent/control".to_string(),
        ..AgentBootstrapConfig::default()
    };

    let result = config.validate();

    assert!(matches!(
        result,
        Err(ConfigError::InsecureControlUrl {
            field: "control_http_url",
            ..
        })
    ));
}

#[test]
fn bootstrap_config_allows_remote_plaintext_control_urls_when_explicitly_enabled() {
    let config = AgentBootstrapConfig {
        control_http_url: "http://control.example.test:3501".to_string(),
        control_ws_url: "ws://control.example.test:3501/agent/control".to_string(),
        allow_insecure_control_url: true,
        ..AgentBootstrapConfig::default()
    };

    let result = config.validate();

    assert!(result.is_ok());
}

#[test]
fn bootstrap_config_rejects_plaintext_hostnames_that_start_with_127() {
    let config = AgentBootstrapConfig {
        control_http_url: "http://127.evil.test:3501".to_string(),
        control_ws_url: "wss://control.example.test/agent/control".to_string(),
        ..AgentBootstrapConfig::default()
    };

    let result = config.validate();

    assert!(matches!(
        result,
        Err(ConfigError::InsecureControlUrl {
            field: "control_http_url",
            ..
        })
    ));
}

fn plaintext_allowed(url: &str) -> bool {
    validate_control_url("control_http_url", url, "https://", "http://", false).is_ok()
}

#[test]
fn plaintext_urls_are_allowed_only_for_loopback_hosts() {
    for url in [
        "http://127.0.0.1",
        "http://127.255.255.254:80/x?y#z",
        "http://localhost",
        "http://localhost:1/",
        "http://localhost?x",
        "http://localhost#x",
        "http://[::1]:3501/agent",
        "http://[0:0:0:0:0:0:0:1]",
        "http://[0000:0:0:0:0:0:0.0.0.1]",
        "http://[::0001",
        "https://anything.at.all",
    ] {
        assert!(plaintext_allowed(url), "{}", url);
    }
    for url in [
        "http://",
        "http://LOCALHOST",
        "http://localhost.",
        "http://user@127.0.0.1",
        "http://127.0.0.1@evil.test",
        "http://127.0.0.1.evil.test",
        "http://127.1",
        "http://127.0.0.01",
        "http://127.0.0.256",
        "http://128.0.0.1",
        "http://::1",
        "http://[::2]",
        "http://[::ffff:127.0.0.1]",
        "http://[1::1::1]",
        "http://[::00001]",
        "http://[0:0:0:0:0:0:0:0:1]",
        "http://[:::1]",
        "ftp://127.0.0.1",
        "HTTP://127.0.0.1",
    ] {
        assert!(!plaintext_allowed(url), "{}", url);
    }
}

#[test]
fn websocket_url_is_checked_after_the_http_url() {
    let config = AgentBootstrapConfig {
        control_ws_url: "ws://control.example.test/agent/control".to_string(),
        ..AgentBootstrapConfig::default()
    };

    let error = config.validate().expect_err("remote plaintext");

    assert_eq!(
        error,
        ConfigError::InsecureControlUrl {
            field: "control_ws_url",
            value: "ws://control.example.test/agent/control".to_string(),
        }
    );
    assert_eq!(
        error.message(),
        "control_ws_url must use https/wss, or http/ws only for loopback endpoints: \
         ws://control.example.test/agent/control"
    );
}

#[test]
fn default_configs_are_valid() {
    assert!(AgentBootstrapConfig::default().validate().is_ok());
    assert!(AgentRuntimeConfig::default().validate().is_ok());
    assert_eq!(
        AgentBootstrapConfig::default().fallback_runtime_config(),
        AgentRuntimeConfig::default()
    );
}

#[test]
fn every_other_fault_is_reported() {
    let blank = AgentRuntimeConfig {
        version: " \t".to_string(),
        ..AgentRuntimeConfig::default()
    };
    assert_eq!(blank.validate(), Err(ConfigError::EmptyVersion));

    let poll = AgentRuntimeConfig {
        agent: AgentRuntimeSettings {
            config_poll_interval_seconds: 0,
            heartbeat_interval_seconds: 0,
        },
        ..AgentRuntimeConfig::default()
    };
    assert_eq!(poll.validate(), Err(ConfigError::EmptyConfigPollInterval));

    let heartbeat = AgentRuntimeConfig {
        agent: AgentRuntimeSettings {
            config_poll_interval_seconds: 1,
            heartbeat_interval_seconds: 0,
        },
        ..AgentRuntimeConfig::default()
    };
    assert_eq!(heartbeat.validate(), Err(ConfigError::EmptyHeartbeatInterval));

    let storage = AgentRuntimeConfig {
        storage: StorageConfig {
            interval_seconds: 0,
            ..StorageConfig::default()
        },
        ..AgentRuntimeConfig::default()
    };
    assert_eq!(storage.validate(), Err(ConfigError::EmptyStorageInterval));

    let mounts = AgentRuntimeConfig {
        storage: StorageConfig {
            mounts: Vec::new(),
            ..StorageConfig::default()
        },
        ..AgentRuntimeConfig::default()
    };
    assert_eq!(mounts.validate(), Err(ConfigError::EmptyStorageMounts));

    let disabled = AgentRuntimeConfig {
        storage: StorageConfig {
            enabled: false,
            mounts: Vec::new(),
            ..StorageConfig::default()
        },
        ..AgentRuntimeConfig::default()
    };
    assert_eq!(disabled.validate(), Ok(()));
}

#[test]
fn messages_name_what_is_wrong() {
    let read = ConfigError::Read {
        path: "/etc/a.toml".to_string(),
        source: "gone".to_string(),
    };
    assert_eq!(read.message(), "failed to read config file /etc/a.toml: gone");
    let parse = ConfigError::Parse {
        path: "a.toml".to_string(),
        source: "bad".to_string(),
    };
    assert_eq!(parse.message(), "failed to parse TOML config file a.toml: bad");
    assert_eq!(
        ConfigError::RelativeStorageMount("var".to_string()).message(),
        "storage mount path must be absolute: var"
    );
    assert_eq!(
        ConfigError::EmptyDiskIoInterval.message(),
        "disk I/O interval must be greater than zero"
    );
}

#[test]
fn overrides_apply_in_turn() {
    let mut runtime = AgentRuntimeConfig::default();
    let first = HostConfigOverride {
        agent: AgentSettingsOverride {
            config_poll_interval_seconds: Some(10),
            heartbeat_interval_seconds: Some(20),
        },
        storage: StorageConfigOverride {
            enabled: None,
            interval_seconds: Some(5),
            mounts: Some(vec!["/a".to_string()]),
        },
        ..HostConfigOverride::default()
    };
    let second = HostConfigOverride {
        agent: AgentSettingsOverride {
            config_poll_interval_seconds: None,
            heartbeat_interval_seconds: Some(30),
        },
        cpu: CpuConfigOverride {
            enabled: Some(true),
            interval_seconds: None,
        },
        ..HostConfigOverride::default()
    };

    first.apply_to(&mut runtime);
    second.apply_to(&mut runtime);
    let twice = {
        let mut again = runtime.clone();
        second.apply_to(&mut again);
        again
    };
    HostConfigOverride::default().apply_to(&mut runtime);

    assert_eq!(runtime.agent.config_poll_interval_seconds, 10);
    assert_eq!(runtime.agent.heartbeat_interval_seconds, 30);
    assert_eq!(runtime.storage.interval_seconds, 5);
    assert_eq!(runtime.storage.mounts, ["/a"]);
    assert!(runtime.cpu.enabled);
    assert_eq!(runtime.cpu.interval_seconds, 1);
    assert_eq!(runtime.version, "local");
    assert_eq!(twice, runtime);
}

#[test]
fn versions_are_exact_and_stable() {
    let mut runtime = AgentRuntimeConfig::default();
    assert_eq!(
        effective_config_version("host-1", &runtime),
        "cfg-3607a450e6b15400"
    );
    assert_eq!(effective_config_version("", &runtime), "cfg-4c2ce76d4c050fb0");
    runtime.version = "anything".to_string();
    assert_eq!(
        effective_config_version("host-1", &runtime),
        "cfg-3607a450e6b15400"
    );
    assert_eq!(
        config_version("prod-vps-1", &runtime, "[\"/\"]"),
        "cfg-1e3bad54b3ee1a7d"
    );

    // Quotes, backslashes, line ends and other scripts in mount paths.
    runtime.storage.mounts = vec!["/".to_string(), "/mnt/\"q\"\\\n\u{e9}".to_string()];
    assert_eq!(
        effective_config_version("h", &runtime),
        "cfg-82895fe440899aea"
    );
}

#[test]
fn source_versions_are_exact() {
    assert_eq!(config_source_version(""), "source-cbf29ce484222325");
    assert_eq!(config_source_version("hello"), "source-a430d84680aabd0b");
}
