//! The runtime configuration that an agent applies.

use vstd::prelude::*;

use crate::config::error::{fault_of, first_fault, ConfigError, ConfigErrorView};
use crate::text::{blank_text, is_blank};

verus! {

/// Seconds between config polls, where nothing else is configured.
pub const DEFAULT_CONFIG_POLL_INTERVAL_SECONDS: u64 = 900;

/// Seconds between heartbeats, where nothing else is configured.
pub const DEFAULT_HEARTBEAT_INTERVAL_SECONDS: u64 = 60;

/// Seconds between storage samples, where nothing else is configured.
pub const DEFAULT_STORAGE_INTERVAL_SECONDS: u64 = 60;

/// Seconds between memory samples, where nothing else is configured.
pub const DEFAULT_MEMORY_INTERVAL_SECONDS: u64 = 60;

/// Seconds between CPU samples, where nothing else is configured.
pub const DEFAULT_CPU_INTERVAL_SECONDS: u64 = 1;

/// Seconds between network samples, where nothing else is configured.
pub const DEFAULT_NETWORK_INTERVAL_SECONDS: u64 = 1;

/// Seconds between disk I/O samples, where nothing else is configured.
pub const DEFAULT_DISK_IO_INTERVAL_SECONDS: u64 = 1;

/// The version of a runtime config that no control server gave out.
pub const LOCAL_CONFIG_VERSION: &'static str = "local";

// ---------------------------------------------------------------------------
// Agent settings
// ---------------------------------------------------------------------------

/// Agent control-loop runtime settings.
#[derive(Clone, Copy, Debug, PartialEq, Eq, Hash, Structural)]
pub struct AgentRuntimeSettings {
    /// Seconds between dynamic config polls.
    pub config_poll_interval_seconds: u64,
    /// Seconds between heartbeat messages.
    pub heartbeat_interval_seconds: u64,
}

/// What is wrong with agent settings.
pub open spec fn agent_fault(agent: AgentRuntimeSettings) -> Option<ConfigErrorView> {
    if agent.config_poll_interval_seconds == 0 {
        Some(ConfigErrorView::EmptyConfigPollInterval)
    } else if agent.heartbeat_interval_seconds == 0 {
        Some(ConfigErrorView::EmptyHeartbeatInterval)
    } else {
        None
    }
}

/// The agent control-loop settings, if nothing else is said.
pub open spec fn default_agent() -> AgentRuntimeSettings {
    AgentRuntimeSettings {
        config_poll_interval_seconds: DEFAULT_CONFIG_POLL_INTERVAL_SECONDS,
        heartbeat_interval_seconds: DEFAULT_HEARTBEAT_INTERVAL_SECONDS,
    }
}

impl AgentRuntimeSettings {
    /// Checks that both intervals are positive.
    pub fn validate(&self) -> (r: Result<(), ConfigError>)
        ensures
            fault_of(r) == agent_fault(*self),
    {
        if self.config_poll_interval_seconds == 0 {
            return Err(ConfigError::EmptyConfigPollInterval);
        }
        if self.heartbeat_interval_seconds == 0 {
            return Err(ConfigError::EmptyHeartbeatInterval);
        }
        Ok(())
    }
}

impl Default for AgentRuntimeSettings {
    fn default() -> (r: Self)
        ensures
            r == default_agent(),
    {
        AgentRuntimeSettings {
            config_poll_interval_seconds: DEFAULT_CONFIG_POLL_INTERVAL_SECONDS,
            heartbeat_interval_seconds: DEFAULT_HEARTBEAT_INTERVAL_SECONDS,
        }
    }
}

// ---------------------------------------------------------------------------
// Storage
// ---------------------------------------------------------------------------

/// The texts that a list of strings holds.
pub open spec fn strings(list: Seq<String>) -> Seq<Seq<char>> {
    list.map_values(|s: String| s@)
}

/// Storage collector runtime settings.
#[derive(Debug, PartialEq, Eq, Hash)]
pub struct StorageConfig {
    /// Whether storage collection is enabled.
    pub enabled: bool,
    /// Seconds between storage collection samples.
    pub interval_seconds: u64,
    /// Absolute mount paths to monitor.
    pub mounts: Vec<String>,
}

/// What a [`StorageConfig`] says.
#[verifier::ext_equal]
pub struct StorageConfigView {
    pub enabled: bool,
    pub interval_seconds: u64,
    pub mounts: Seq<Seq<char>>,
}

impl View for StorageConfig {
    type V = StorageConfigView;

    open spec fn view(&self) -> StorageConfigView {
        StorageConfigView {
            enabled: self.enabled,
            interval_seconds: self.interval_seconds,
            mounts: strings(self.mounts@),
        }
    }
}

/// Copies a list of strings.
pub fn copy_strings(list: &Vec<String>) -> (r: Vec<String>)
    ensures
        strings(r@) == strings(list@),
{
    let n: usize = list.len();
    let mut r: Vec<String> = Vec::new();
    for i in 0..n
        invariant
            n == list@.len(),
            r@.len() == i,
            forall|k: int| 0 <= k < i ==> (#[trigger] r@[k])@ == list@[k]@,
    {
        r.push(list[i].clone());
    }
    assert(strings(r@) =~= strings(list@));
    r
}

impl Clone for StorageConfig {
    fn clone(&self) -> (r: Self)
        ensures
            r@ == self@,
    {
        StorageConfig {
            enabled: self.enabled,
            interval_seconds: self.interval_seconds,
            mounts: copy_strings(&self.mounts),
        }
    }
}

/// A path that starts at the root of the file system.
pub open spec fn is_absolute(path: Seq<char>) -> bool {
    path.len() > 0 && path[0] == '/'
}

/// The first path of a list that is not absolute.
pub open spec fn first_relative(paths: Seq<Seq<char>>) -> Option<Seq<char>>
    decreases paths.len(),
{
    if paths.len() == 0 {
        None
    } else if !is_absolute(paths[0]) {
        Some(paths[0])
    } else {
        first_relative(paths.skip(1))
    }
}

/// What is wrong with storage settings.
pub open spec fn storage_fault(storage: StorageConfigView) -> Option<ConfigErrorView> {
    if storage.interval_seconds == 0 {
        Some(ConfigErrorView::EmptyStorageInterval)
    } else if storage.enabled && storage.mounts.len() == 0 {
        Some(ConfigErrorView::EmptyStorageMounts)
    } else {
        match first_relative(storage.mounts) {
            Some(path) => Some(ConfigErrorView::RelativeStorageMount(path)),
            None => None,
        }
    }
}

/// The storage collector settings, if nothing else is said.
pub open spec fn default_storage() -> StorageConfigView {
    StorageConfigView {
        enabled: true,
        interval_seconds: DEFAULT_STORAGE_INTERVAL_SECONDS,
        mounts: seq!["/"@],
    }
}

proof fn lemma_first_relative(paths: Seq<Seq<char>>)
    ensures
        first_relative(paths) is None <==> forall|i: int|
            0 <= i < paths.len() ==> is_absolute(#[trigger] paths[i]),
    decreases paths.len(),
{
    if paths.len() > 0 {
        let rest = paths.skip(1);
        lemma_first_relative(rest);
        if first_relative(paths) is None {
            assert forall|i: int| 0 <= i < paths.len() implies is_absolute(#[trigger] paths[i]) by {
                if i > 0 {
                    assert(paths[i] == rest[i - 1]);
                }
            }
        } else if is_absolute(paths[0]) {
            let i = choose|i: int| 0 <= i < rest.len() && !is_absolute(#[trigger] rest[i]);
            assert(rest[i] == paths[i + 1]);
        }
    }
}

/// Reports whether a path is absolute.
pub fn absolute(path: &str) -> (r: bool)
    ensures
        r == is_absolute(path@),
{
    let first = path.chars().next();
    match first {
        Some(c) => c == '/',
        None => false,
    }
}

impl StorageConfig {
    /// Checks the interval and the mount paths.
    pub fn validate(&self) -> (r: Result<(), ConfigError>)
        ensures
            fault_of(r) == storage_fault(self@),
    {
        if self.interval_seconds == 0 {
            return Err(ConfigError::EmptyStorageInterval);
        }
        let n: usize = self.mounts.len();
        if self.enabled && n == 0 {
            return Err(ConfigError::EmptyStorageMounts);
        }
        let ghost paths = self@.mounts;
        assert(paths.skip(0) == paths);
        for i in 0..n
            invariant
                n == self.mounts@.len(),
                paths == self@.mounts,
                paths.len() == n,
                self.interval_seconds != 0,
                !(self.enabled && n == 0),
                first_relative(paths) == first_relative(paths.skip(i as int)),
        {
            assert(paths.skip(i as int)[0] == self.mounts@[i as int]@);
            assert(paths.skip(i as int).skip(1) == paths.skip(i + 1));
            if !absolute(self.mounts[i].as_str()) {
                return Err(ConfigError::RelativeStorageMount(self.mounts[i].clone()));
            }
        }
        Ok(())
    }
}

impl Default for StorageConfig {
    fn default() -> (r: Self)
        ensures
            r@ == default_storage(),
    {
        let r = StorageConfig {
            enabled: true,
            interval_seconds: DEFAULT_STORAGE_INTERVAL_SECONDS,
            mounts: vec!["/".to_string()],
        };
        assert(r@.mounts =~= seq!["/"@]);
        r
    }
}

// ---------------------------------------------------------------------------
// Memory, CPU, network and disk I/O
// ---------------------------------------------------------------------------

/// Memory collector runtime settings.
#[derive(Clone, Copy, Debug, PartialEq, Eq, Hash, Structural)]
pub struct MemoryConfig {
    /// Whether memory collection is enabled.
    pub enabled: bool,
    /// Seconds between memory collection samples.
    pub interval_seconds: u64,
}

/// What is wrong with memory collector settings.
pub open spec fn memory_fault(memory: MemoryConfig) -> Option<ConfigErrorView> {
    if memory.interval_seconds == 0 {
        Some(ConfigErrorView::EmptyMemoryInterval)
    } else {
        None
    }
}

/// The memory collector settings, if nothing else is said.
pub open spec fn default_memory() -> MemoryConfig {
    MemoryConfig { enabled: true, interval_seconds: DEFAULT_MEMORY_INTERVAL_SECONDS }
}

impl MemoryConfig {
    /// Checks that the interval is positive.
    pub fn validate(&self) -> (r: Result<(), ConfigError>)
        ensures
            fault_of(r) == memory_fault(*self),
    {
        if self.interval_seconds == 0 {
            return Err(ConfigError::EmptyMemoryInterval);
        }
        Ok(())
    }
}

impl Default for MemoryConfig {
    fn default() -> (r: Self)
        ensures
            r == default_memory(),
    {
        MemoryConfig { enabled: true, interval_seconds: DEFAULT_MEMORY_INTERVAL_SECONDS }
    }
}

/// CPU collector runtime settings.
#[derive(Clone, Copy, Debug, PartialEq, Eq, Hash, Structural)]
pub struct CpuConfig {
    /// Whether CPU collection is enabled.
    pub enabled: bool,
    /// Seconds between CPU collection samples.
    pub interval_seconds: u64,
}

/// What is wrong with CPU collector settings.
pub open spec fn cpu_fault(cpu: CpuConfig) -> Option<ConfigErrorView> {
    if cpu.interval_seconds == 0 {
        Some(ConfigErrorView::EmptyCpuInterval)
    } else {
        None
    }
}

/// The CPU collector settings, if nothing else is said.
pub open spec fn default_cpu() -> CpuConfig {
    CpuConfig { enabled: false, interval_seconds: DEFAULT_CPU_INTERVAL_SECONDS }
}

impl CpuConfig {
    /// Checks that the interval is positive.
    pub fn validate(&self) -> (r: Result<(), ConfigError>)
        ensures
            fault_of(r) == cpu_fault(*self),
    {
        if self.interval_seconds == 0 {
            return Err(ConfigError::EmptyCpuInterval);
        }
        Ok(())
    }
}

impl Default for CpuConfig {
    fn default() -> (r: Self)
        ensures
            r == default_cpu(),
    {
        CpuConfig { enabled: false, interval_seconds: DEFAULT_CPU_INTERVAL_SECONDS }
    }
}

/// Network collector runtime settings.
#[derive(Clone, Copy, Debug, PartialEq, Eq, Hash, Structural)]
pub struct NetworkConfig {
    /// Whether network collection is enabled.
    pub enabled: bool,
    /// Seconds between network collection samples.
    pub interval_seconds: u64,
}

/// What is wrong with network collector settings.
pub open spec fn network_fault(network: NetworkConfig) -> Option<ConfigErrorView> {
    if network.interval_seconds == 0 {
        Some(ConfigErrorView::EmptyNetworkInterval)
    } else {
        None
    }
}

/// The network collector settings, if nothing else is said.
pub open spec fn default_network() -> NetworkConfig {
    NetworkConfig { enabled: false, interval_seconds: DEFAULT_NETWORK_INTERVAL_SECONDS }
}

impl NetworkConfig {
    /// Checks that the interval is positive.
    pub fn validate(&self) -> (r: Result<(), ConfigError>)
        ensures
            fault_of(r) == network_fault(*self),
    {
        if self.interval_seconds == 0 {
            return Err(ConfigError::EmptyNetworkInterval);
        }
        Ok(())
    }
}

impl Default for NetworkConfig {
    fn default() -> (r: Self)
        ensures
            r == default_network(),
    {
        NetworkConfig { enabled: false, interval_seconds: DEFAULT_NETWORK_INTERVAL_SECONDS }
    }
}

/// Disk I/O collector runtime settings.
#[derive(Clone, Copy, Debug, PartialEq, Eq, Hash, Structural)]
pub struct DiskIoConfig {
    /// Whether disk I/O collection is enabled.
    pub enabled: bool,
    /// Seconds between disk I/O collection samples.
    pub interval_seconds: u64,
}

/// What is wrong with disk I/O collector settings.
pub open spec fn disk_io_fault(disk_io: DiskIoConfig) -> Option<ConfigErrorView> {
    if disk_io.interval_seconds == 0 {
        Some(ConfigErrorView::EmptyDiskIoInterval)
    } else {
        None
    }
}

/// The disk I/O collector settings, if nothing else is said.
pub open spec fn default_disk_io() -> DiskIoConfig {
    DiskIoConfig { enabled: false, interval_seconds: DEFAULT_DISK_IO_INTERVAL_SECONDS }
}

impl DiskIoConfig {
    /// Checks that the interval is positive.
    pub fn validate(&self) -> (r: Result<(), ConfigError>)
        ensures
            fault_of(r) == disk_io_fault(*self),
    {
        if self.interval_seconds == 0 {
            return Err(ConfigError::EmptyDiskIoInterval);
        }
        Ok(())
    }
}

impl Default for DiskIoConfig {
    fn default() -> (r: Self)
        ensures
            r == default_disk_io(),
    {
        DiskIoConfig { enabled: false, interval_seconds: DEFAULT_DISK_IO_INTERVAL_SECONDS }
    }
}

// ---------------------------------------------------------------------------
// The whole runtime config
// ---------------------------------------------------------------------------

/// Runtime configuration that an agent is given or derives.
///
/// Both the local fallback settings and the host overrides of a control server
/// resolve into this type, and are then validated.
#[derive(Debug, PartialEq, Eq, Hash)]
pub struct AgentRuntimeConfig {
    /// Runtime config version identifier reported in heartbeats and metrics.
    pub version: String,
    /// Agent control-loop settings.
    pub agent: AgentRuntimeSettings,
    /// Storage collector settings.
    pub storage: StorageConfig,
    /// Memory collector settings.
    pub memory: MemoryConfig,
    /// CPU collector settings.
    pub cpu: CpuConfig,
    /// Network collector settings.
    pub network: NetworkConfig,
    /// Disk I/O collector settings.
    pub disk_io: DiskIoConfig,
}

/// What an [`AgentRuntimeConfig`] says.
#[verifier::ext_equal]
pub struct AgentRuntimeConfigView {
    pub version: Seq<char>,
    pub agent: AgentRuntimeSettings,
    pub storage: StorageConfigView,
    pub memory: MemoryConfig,
    pub cpu: CpuConfig,
    pub network: NetworkConfig,
    pub disk_io: DiskIoConfig,
}

impl View for AgentRuntimeConfig {
    type V = AgentRuntimeConfigView;

    open spec fn view(&self) -> AgentRuntimeConfigView {
        AgentRuntimeConfigView {
            version: self.version@,
            agent: self.agent,
            storage: self.storage@,
            memory: self.memory,
            cpu: self.cpu,
            network: self.network,
            disk_io: self.disk_io,
        }
    }
}

impl Clone for AgentRuntimeConfig {
    fn clone(&self) -> (r: Self)
        ensures
            r@ == self@,
    {
        AgentRuntimeConfig {
            version: self.version.clone(),
            agent: self.agent,
            storage: self.storage.clone(),
            memory: self.memory,
            cpu: self.cpu,
            network: self.network,
            disk_io: self.disk_io,
        }
    }
}

/// The first thing wrong with a runtime config.
pub open spec fn runtime_fault(c: AgentRuntimeConfigView) -> Option<ConfigErrorView> {
    if is_blank(c.version) {
        Some(ConfigErrorView::EmptyVersion)
    } else {
        first_fault(
            agent_fault(c.agent),
            first_fault(
                storage_fault(c.storage),
                first_fault(
                    memory_fault(c.memory),
                    first_fault(
                        cpu_fault(c.cpu),
                        first_fault(network_fault(c.network), disk_io_fault(c.disk_io)),
                    ),
                ),
            ),
        )
    }
}

/// A runtime config that an agent may apply.
pub open spec fn valid_runtime(c: AgentRuntimeConfigView) -> bool {
    &&& !is_blank(c.version)
    &&& c.agent.config_poll_interval_seconds > 0
    &&& c.agent.heartbeat_interval_seconds > 0
    &&& c.storage.interval_seconds > 0
    &&& c.storage.enabled ==> c.storage.mounts.len() > 0
    &&& forall|i: int|
        0 <= i < c.storage.mounts.len() ==> is_absolute(#[trigger] c.storage.mounts[i])
    &&& c.memory.interval_seconds > 0
    &&& c.cpu.interval_seconds > 0
    &&& c.network.interval_seconds > 0
    &&& c.disk_io.interval_seconds > 0
}

/// The runtime config, if nothing else is said.
pub open spec fn default_runtime() -> AgentRuntimeConfigView {
    AgentRuntimeConfigView {
        version: LOCAL_CONFIG_VERSION@,
        agent: default_agent(),
        storage: default_storage(),
        memory: default_memory(),
        cpu: default_cpu(),
        network: default_network(),
        disk_io: default_disk_io(),
    }
}

impl AgentRuntimeConfig {
    /// Validates runtime settings before the agent applies them.
    pub fn validate(&self) -> (r: Result<(), ConfigError>)
        ensures
            fault_of(r) == runtime_fault(self@),
    {
        if blank_text(self.version.as_str()) {
            return Err(ConfigError::EmptyVersion);
        }
        self.agent.validate()?;
        self.storage.validate()?;
        self.memory.validate()?;
        self.cpu.validate()?;
        self.network.validate()?;
        self.disk_io.validate()
    }
}

impl Default for AgentRuntimeConfig {
    fn default() -> (r: Self)
        ensures
            r@ == default_runtime(),
    {
        AgentRuntimeConfig {
            version: LOCAL_CONFIG_VERSION.to_string(),
            agent: AgentRuntimeSettings::default(),
            storage: StorageConfig::default(),
            memory: MemoryConfig::default(),
            cpu: CpuConfig::default(),
            network: NetworkConfig::default(),
            disk_io: DiskIoConfig::default(),
        }
    }
}

/// Validation accepts exactly the configs that may be applied: those with a
/// version, positive intervals, absolute mount paths, and at least one of these
/// where storage is collected.
pub proof fn law_validation_accepts_exactly_the_valid(c: AgentRuntimeConfigView)
    ensures
        runtime_fault(c) is None <==> valid_runtime(c),
{
    lemma_first_relative(c.storage.mounts);
}

/// The default runtime config is valid.
pub proof fn law_default_runtime_is_valid()
    ensures
        valid_runtime(default_runtime()),
        runtime_fault(default_runtime()) is None,
{
    reveal_strlit("local");
    reveal_strlit("/");
    let version = default_runtime().version;
    assert(!crate::text::is_white_space(version[0]));
    assert(valid_runtime(default_runtime()));
    law_validation_accepts_exactly_the_valid(default_runtime());
}

/// What is found wrong is wrong: the fault of a config names a setting of it that
/// is at fault, and the settings that are looked at before it are in order.
pub proof fn law_fault_names_what_is_wrong(c: AgentRuntimeConfigView)
    ensures
        match runtime_fault(c) {
            None => true,
            Some(fault) => {
                let named = !is_blank(c.version);
                let agent = c.agent.config_poll_interval_seconds > 0
                    && c.agent.heartbeat_interval_seconds > 0;
                let storage = storage_fault(c.storage) is None;
                let memory = c.memory.interval_seconds > 0;
                let cpu = c.cpu.interval_seconds > 0;
                let network = c.network.interval_seconds > 0;
                match fault {
                    ConfigErrorView::EmptyVersion => !named,
                    ConfigErrorView::EmptyConfigPollInterval => named
                        && c.agent.config_poll_interval_seconds == 0,
                    ConfigErrorView::EmptyHeartbeatInterval => named
                        && c.agent.config_poll_interval_seconds > 0
                        && c.agent.heartbeat_interval_seconds == 0,
                    ConfigErrorView::EmptyStorageInterval => named && agent
                        && c.storage.interval_seconds == 0,
                    ConfigErrorView::EmptyStorageMounts => named && agent
                        && c.storage.interval_seconds > 0 && c.storage.enabled
                        && c.storage.mounts.len() == 0,
                    ConfigErrorView::RelativeStorageMount(path) => named && agent
                        && c.storage.interval_seconds > 0 && exists|i: int|
                        0 <= i < c.storage.mounts.len() && #[trigger] c.storage.mounts[i] == path
                            && !is_absolute(path) && forall|k: int|
                            0 <= k < i ==> is_absolute(#[trigger] c.storage.mounts[k]),
                    ConfigErrorView::EmptyMemoryInterval => named && agent && storage && !memory,
                    ConfigErrorView::EmptyCpuInterval => named && agent && storage && memory
                        && !cpu,
                    ConfigErrorView::EmptyNetworkInterval => named && agent && storage && memory
                        && cpu && !network,
                    ConfigErrorView::EmptyDiskIoInterval => named && agent && storage && memory
                        && cpu && network && c.disk_io.interval_seconds == 0,
                    _ => false,
                }
            },
        },
{
    lemma_first_relative_place(c.storage.mounts);
}

proof fn lemma_first_relative_place(paths: Seq<Seq<char>>)
    ensures
        first_relative(paths) matches Some(path) ==> exists|i: int|
            0 <= i < paths.len() && #[trigger] paths[i] == path && !is_absolute(path) && forall|
                k: int,
            |
                0 <= k < i ==> is_absolute(#[trigger] paths[k]),
    decreases paths.len(),
{
    if paths.len() > 0 && first_relative(paths) is Some {
        let path = first_relative(paths)->0;
        if is_absolute(paths[0]) {
            let rest = paths.skip(1);
            lemma_first_relative_place(rest);
            let i = choose|i: int|
                0 <= i < rest.len() && #[trigger] rest[i] == path && !is_absolute(path) && forall|
                    k: int,
                |
                    0 <= k < i ==> is_absolute(#[trigger] rest[k]);
            assert(paths[i + 1] == path);
            assert forall|k: int| 0 <= k < i + 1 implies is_absolute(#[trigger] paths[k]) by {
                if k > 0 {
                    assert(paths[k] == rest[k - 1]);
                }
            }
        } else {
            assert(paths[0] == path);
        }
    }
}

/// A path is absolute just where it starts with a slash, whatever follows.
pub proof fn law_absolute_paths_start_with_a_slash(rest: Seq<char>, c: char)
    ensures
        is_absolute(seq![c] + rest) <==> c == '/',
        !is_absolute(Seq::empty()),
{
}

} // verus!
