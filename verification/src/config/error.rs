//! What can be wrong with a configuration.

use vstd::prelude::*;

verus! {

/// Errors returned while configuration is loaded or validated.
#[derive(Debug, PartialEq, Eq)]
pub enum ConfigError {
    /// A configuration file could not be read.
    Read {
        /// Path that failed to read.
        path: String,
        /// What the operating system said.
        source: String,
    },
    /// A TOML configuration file could not be parsed.
    Parse {
        /// Path that failed to parse.
        path: String,
        /// What the TOML parser said.
        source: String,
    },
    /// Runtime config version was blank.
    EmptyVersion,
    /// Agent config polling interval was zero.
    EmptyConfigPollInterval,
    /// Agent heartbeat interval was zero.
    EmptyHeartbeatInterval,
    /// Storage collection interval was zero.
    EmptyStorageInterval,
    /// Storage collection was enabled without any mount paths.
    EmptyStorageMounts,
    /// Storage mount path was relative.
    RelativeStorageMount(String),
    /// Memory collection interval was zero.
    EmptyMemoryInterval,
    /// CPU collection interval was zero.
    EmptyCpuInterval,
    /// Network collection interval was zero.
    EmptyNetworkInterval,
    /// Disk I/O collection interval was zero.
    EmptyDiskIoInterval,
    /// Control URL used an insecure non-loopback endpoint.
    InsecureControlUrl {
        /// Config field name.
        field: &'static str,
        /// Configured URL value.
        value: String,
    },
}

/// What a [`ConfigError`] says.
pub enum ConfigErrorView {
    Read { path: Seq<char>, source: Seq<char> },
    Parse { path: Seq<char>, source: Seq<char> },
    EmptyVersion,
    EmptyConfigPollInterval,
    EmptyHeartbeatInterval,
    EmptyStorageInterval,
    EmptyStorageMounts,
    RelativeStorageMount(Seq<char>),
    EmptyMemoryInterval,
    EmptyCpuInterval,
    EmptyNetworkInterval,
    EmptyDiskIoInterval,
    InsecureControlUrl { field: Seq<char>, value: Seq<char> },
}

impl View for ConfigError {
    type V = ConfigErrorView;

    open spec fn view(&self) -> ConfigErrorView {
        match self {
            ConfigError::Read { path, source } => ConfigErrorView::Read {
                path: path@,
                source: source@,
            },
            ConfigError::Parse { path, source } => ConfigErrorView::Parse {
                path: path@,
                source: source@,
            },
            ConfigError::EmptyVersion => ConfigErrorView::EmptyVersion,
            ConfigError::EmptyConfigPollInterval => ConfigErrorView::EmptyConfigPollInterval,
            ConfigError::EmptyHeartbeatInterval => ConfigErrorView::EmptyHeartbeatInterval,
            ConfigError::EmptyStorageInterval => ConfigErrorView::EmptyStorageInterval,
            ConfigError::EmptyStorageMounts => ConfigErrorView::EmptyStorageMounts,
            ConfigError::RelativeStorageMount(path) => ConfigErrorView::RelativeStorageMount(path@),
            ConfigError::EmptyMemoryInterval => ConfigErrorView::EmptyMemoryInterval,
            ConfigError::EmptyCpuInterval => ConfigErrorView::EmptyCpuInterval,
            ConfigError::EmptyNetworkInterval => ConfigErrorView::EmptyNetworkInterval,
            ConfigError::EmptyDiskIoInterval => ConfigErrorView::EmptyDiskIoInterval,
            ConfigError::InsecureControlUrl { field, value } => ConfigErrorView::InsecureControlUrl {
                field: field@,
                value: value@,
            },
        }
    }
}

/// The fault that a check found, where it found one.
pub open spec fn fault_of(r: Result<(), ConfigError>) -> Option<ConfigErrorView> {
    match r {
        Ok(_) => None,
        Err(e) => Some(e@),
    }
}

/// The first of two faults.
pub open spec fn first_fault(
    a: Option<ConfigErrorView>,
    b: Option<ConfigErrorView>,
) -> Option<ConfigErrorView> {
    if a is Some {
        a
    } else {
        b
    }
}

/// The message of a fault, for people.
pub open spec fn fault_message(e: ConfigErrorView) -> Seq<char> {
    match e {
        ConfigErrorView::Read { path, source } => "failed to read config file "@ + path + ": "@
            + source,
        ConfigErrorView::Parse { path, source } => "failed to parse TOML config file "@ + path
            + ": "@ + source,
        ConfigErrorView::EmptyVersion => "agent config version must not be empty"@,
        ConfigErrorView::EmptyConfigPollInterval =>
            "agent config poll interval must be greater than zero"@,
        ConfigErrorView::EmptyHeartbeatInterval =>
            "agent heartbeat interval must be greater than zero"@,
        ConfigErrorView::EmptyStorageInterval => "storage interval must be greater than zero"@,
        ConfigErrorView::EmptyStorageMounts =>
            "storage collector is enabled but no mounts are configured"@,
        ConfigErrorView::RelativeStorageMount(path) => "storage mount path must be absolute: "@
            + path,
        ConfigErrorView::EmptyMemoryInterval => "memory interval must be greater than zero"@,
        ConfigErrorView::EmptyCpuInterval => "cpu interval must be greater than zero"@,
        ConfigErrorView::EmptyNetworkInterval => "network interval must be greater than zero"@,
        ConfigErrorView::EmptyDiskIoInterval => "disk I/O interval must be greater than zero"@,
        ConfigErrorView::InsecureControlUrl { field, value } => field
            + " must use https/wss, or http/ws only for loopback endpoints: "@ + value,
    }
}

impl ConfigError {
    /// The message of the error, for people.
    pub fn message(&self) -> (r: String)
        ensures
            r@ == fault_message(self@),
    {
        match self {
            ConfigError::Read { path, source } => "failed to read config file ".to_string().concat(
                path.as_str(),
            ).concat(": ").concat(source.as_str()),
            ConfigError::Parse {
                path,
                source,
            } => "failed to parse TOML config file ".to_string().concat(path.as_str()).concat(
                ": ",
            ).concat(source.as_str()),
            ConfigError::EmptyVersion => "agent config version must not be empty".to_string(),
            ConfigError::EmptyConfigPollInterval =>
                "agent config poll interval must be greater than zero".to_string(),
            ConfigError::EmptyHeartbeatInterval =>
                "agent heartbeat interval must be greater than zero".to_string(),
            ConfigError::EmptyStorageInterval =>
                "storage interval must be greater than zero".to_string(),
            ConfigError::EmptyStorageMounts =>
                "storage collector is enabled but no mounts are configured".to_string(),
            ConfigError::RelativeStorageMount(
                path,
            ) => "storage mount path must be absolute: ".to_string().concat(path.as_str()),
            ConfigError::EmptyMemoryInterval =>
                "memory interval must be greater than zero".to_string(),
            ConfigError::EmptyCpuInterval => "cpu interval must be greater than zero".to_string(),
            ConfigError::EmptyNetworkInterval =>
                "network interval must be greater than zero".to_string(),
            ConfigError::EmptyDiskIoInterval =>
                "disk I/O interval must be greater than zero".to_string(),
            ConfigError::InsecureControlUrl { field, value } => (*field).to_string().concat(
                " must use https/wss, or http/ws only for loopback endpoints: ",
            ).concat(value.as_str()),
        }
    }
}

} // verus!
