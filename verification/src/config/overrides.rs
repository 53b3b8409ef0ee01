//! Partial runtime configuration that overrides another.

use vstd::prelude::*;

use crate::config::runtime::{
    copy_strings, strings, AgentRuntimeConfig, AgentRuntimeConfigView, AgentRuntimeSettings,
    CpuConfig, DiskIoConfig, MemoryConfig, NetworkConfig, StorageConfig, StorageConfigView,
};

verus! {

/// The value that an override gives, or else the one that stands.
pub open spec fn replaced<T>(by: Option<T>, standing: T) -> T {
    match by {
        Some(value) => value,
        None => standing,
    }
}

/// Two overrides in turn: the later value where there is one, or else the
/// earlier.
pub open spec fn later<T>(first: Option<T>, second: Option<T>) -> Option<T> {
    if second is Some {
        second
    } else {
        first
    }
}

/// Partial override for agent control-loop settings.
#[derive(Clone, Copy, Debug, PartialEq, Eq, Structural)]
pub struct AgentSettingsOverride {
    /// Optional replacement for runtime config poll interval seconds.
    pub config_poll_interval_seconds: Option<u64>,
    /// Optional replacement for heartbeat interval seconds.
    pub heartbeat_interval_seconds: Option<u64>,
}

/// Agent control-loop settings, with what an override replaces in them.
pub open spec fn agent_overridden(
    by: AgentSettingsOverride,
    agent: AgentRuntimeSettings,
) -> AgentRuntimeSettings {
    AgentRuntimeSettings {
        config_poll_interval_seconds: replaced(
            by.config_poll_interval_seconds,
            agent.config_poll_interval_seconds,
        ),
        heartbeat_interval_seconds: replaced(
            by.heartbeat_interval_seconds,
            agent.heartbeat_interval_seconds,
        ),
    }
}

impl AgentSettingsOverride {
    /// Applies the override to agent settings.
    pub fn apply_to(&self, agent: &mut AgentRuntimeSettings)
        ensures
            *final(agent) == agent_overridden(*self, *old(agent)),
    {
        if let Some(interval) = self.config_poll_interval_seconds {
            agent.config_poll_interval_seconds = interval;
        }
        if let Some(interval) = self.heartbeat_interval_seconds {
            agent.heartbeat_interval_seconds = interval;
        }
    }
}

impl Default for AgentSettingsOverride {
    fn default() -> (r: Self)
        ensures
            r.config_poll_interval_seconds is None,
            r.heartbeat_interval_seconds is None,
    {
        AgentSettingsOverride {
            config_poll_interval_seconds: None,
            heartbeat_interval_seconds: None,
        }
    }
}

/// Partial override for storage collector settings.
#[derive(Debug, PartialEq, Eq)]
pub struct StorageConfigOverride {
    /// Optional replacement for whether storage collection is enabled.
    pub enabled: Option<bool>,
    /// Optional replacement for storage collection interval seconds.
    pub interval_seconds: Option<u64>,
    /// Optional replacement for monitored mount paths.
    pub mounts: Option<Vec<String>>,
}

/// What a [`StorageConfigOverride`] says.
#[verifier::ext_equal]
pub struct StorageConfigOverrideView {
    pub enabled: Option<bool>,
    pub interval_seconds: Option<u64>,
    pub mounts: Option<Seq<Seq<char>>>,
}

impl View for StorageConfigOverride {
    type V = StorageConfigOverrideView;

    open spec fn view(&self) -> StorageConfigOverrideView {
        StorageConfigOverrideView {
            enabled: self.enabled,
            interval_seconds: self.interval_seconds,
            mounts: match self.mounts {
                Some(list) => Some(strings(list@)),
                None => None,
            },
        }
    }
}

/// Storage collector settings, with what an override replaces in them.
pub open spec fn storage_overridden(
    by: StorageConfigOverrideView,
    storage: StorageConfigView,
) -> StorageConfigView {
    StorageConfigView {
        enabled: replaced(by.enabled, storage.enabled),
        interval_seconds: replaced(by.interval_seconds, storage.interval_seconds),
        mounts: replaced(by.mounts, storage.mounts),
    }
}

impl StorageConfigOverride {
    /// Applies the override to storage settings.
    pub fn apply_to(&self, storage: &mut StorageConfig)
        ensures
            final(storage)@ == storage_overridden(self@, old(storage)@),
    {
        if let Some(enabled) = self.enabled {
            storage.enabled = enabled;
        }
        if let Some(interval) = self.interval_seconds {
            storage.interval_seconds = interval;
        }
        if let Some(mounts) = &self.mounts {
            storage.mounts = copy_strings(mounts);
        }
    }
}

impl Default for StorageConfigOverride {
    fn default() -> (r: Self)
        ensures
            r.enabled is None,
            r.interval_seconds is None,
            r.mounts is None,
    {
        StorageConfigOverride { enabled: None, interval_seconds: None, mounts: None }
    }
}

impl Clone for StorageConfigOverride {
    fn clone(&self) -> (r: Self)
        ensures
            r@ == self@,
    {
        StorageConfigOverride {
            enabled: self.enabled,
            interval_seconds: self.interval_seconds,
            mounts: match &self.mounts {
                Some(list) => Some(copy_strings(list)),
                None => None,
            },
        }
    }
}

/// Partial override for memory collector settings.
#[derive(Clone, Copy, Debug, PartialEq, Eq, Structural)]
pub struct MemoryConfigOverride {
    /// Optional replacement for whether memory collection is enabled.
    pub enabled: Option<bool>,
    /// Optional replacement for memory collection interval seconds.
    pub interval_seconds: Option<u64>,
}

/// Memory collector settings, with what an override replaces in them.
pub open spec fn memory_overridden(by: MemoryConfigOverride, memory: MemoryConfig) -> MemoryConfig {
    MemoryConfig {
        enabled: replaced(by.enabled, memory.enabled),
        interval_seconds: replaced(by.interval_seconds, memory.interval_seconds),
    }
}

impl MemoryConfigOverride {
    /// Applies the override to memory settings.
    pub fn apply_to(&self, memory: &mut MemoryConfig)
        ensures
            *final(memory) == memory_overridden(*self, *old(memory)),
    {
        if let Some(enabled) = self.enabled {
            memory.enabled = enabled;
        }
        if let Some(interval) = self.interval_seconds {
            memory.interval_seconds = interval;
        }
    }
}

impl Default for MemoryConfigOverride {
    fn default() -> (r: Self)
        ensures
            r.enabled is None,
            r.interval_seconds is None,
    {
        MemoryConfigOverride { enabled: None, interval_seconds: None }
    }
}

/// Partial override for CPU collector settings.
#[derive(Clone, Copy, Debug, PartialEq, Eq, Structural)]
pub struct CpuConfigOverride {
    /// Optional replacement for whether CPU collection is enabled.
    pub enabled: Option<bool>,
    /// Optional replacement for CPU collection interval seconds.
    pub interval_seconds: Option<u64>,
}

/// CPU collector settings, with what an override replaces in them.
pub open spec fn cpu_overridden(by: CpuConfigOverride, cpu: CpuConfig) -> CpuConfig {
    CpuConfig {
        enabled: replaced(by.enabled, cpu.enabled),
        interval_seconds: replaced(by.interval_seconds, cpu.interval_seconds),
    }
}

impl CpuConfigOverride {
    /// Applies the override to CPU settings.
    pub fn apply_to(&self, cpu: &mut CpuConfig)
        ensures
            *final(cpu) == cpu_overridden(*self, *old(cpu)),
    {
        if let Some(enabled) = self.enabled {
            cpu.enabled = enabled;
        }
        if let Some(interval) = self.interval_seconds {
            cpu.interval_seconds = interval;
        }
    }
}

impl Default for CpuConfigOverride {
    fn default() -> (r: Self)
        ensures
            r.enabled is None,
            r.interval_seconds is None,
    {
        CpuConfigOverride { enabled: None, interval_seconds: None }
    }
}

/// Partial override for network collector settings.
#[derive(Clone, Copy, Debug, PartialEq, Eq, Structural)]
pub struct NetworkConfigOverride {
    /// Optional replacement for whether network collection is enabled.
    pub enabled: Option<bool>,
    /// Optional replacement for network collection interval seconds.
    pub interval_seconds: Option<u64>,
}

/// Network collector settings, with what an override replaces in them.
pub open spec fn network_overridden(
    by: NetworkConfigOverride,
    network: NetworkConfig,
) -> NetworkConfig {
    NetworkConfig {
        enabled: replaced(by.enabled, network.enabled),
        interval_seconds: replaced(by.interval_seconds, network.interval_seconds),
    }
}

impl NetworkConfigOverride {
    /// Applies the override to network settings.
    pub fn apply_to(&self, network: &mut NetworkConfig)
        ensures
            *final(network) == network_overridden(*self, *old(network)),
    {
        if let Some(enabled) = self.enabled {
            network.enabled = enabled;
        }
        if let Some(interval) = self.interval_seconds {
            network.interval_seconds = interval;
        }
    }
}

impl Default for NetworkConfigOverride {
    fn default() -> (r: Self)
        ensures
            r.enabled is None,
            r.interval_seconds is None,
    {
        NetworkConfigOverride { enabled: None, interval_seconds: None }
    }
}

/// Partial override for disk I/O collector settings.
#[derive(Clone, Copy, Debug, PartialEq, Eq, Structural)]
pub struct DiskIoConfigOverride {
    /// Optional replacement for whether disk I/O collection is enabled.
    pub enabled: Option<bool>,
    /// Optional replacement for disk I/O collection interval seconds.
    pub interval_seconds: Option<u64>,
}

/// Disk I/O collector settings, with what an override replaces in them.
pub open spec fn disk_io_overridden(
    by: DiskIoConfigOverride,
    disk_io: DiskIoConfig,
) -> DiskIoConfig {
    DiskIoConfig {
        enabled: replaced(by.enabled, disk_io.enabled),
        interval_seconds: replaced(by.interval_seconds, disk_io.interval_seconds),
    }
}

impl DiskIoConfigOverride {
    /// Applies the override to disk I/O settings.
    pub fn apply_to(&self, disk_io: &mut DiskIoConfig)
        ensures
            *final(disk_io) == disk_io_overridden(*self, *old(disk_io)),
    {
        if let Some(enabled) = self.enabled {
            disk_io.enabled = enabled;
        }
        if let Some(interval) = self.interval_seconds {
            disk_io.interval_seconds = interval;
        }
    }
}

impl Default for DiskIoConfigOverride {
    fn default() -> (r: Self)
        ensures
            r.enabled is None,
            r.interval_seconds is None,
    {
        DiskIoConfigOverride { enabled: None, interval_seconds: None }
    }
}

/// Host-level runtime config override.
///
/// Every field is partial, so that a control-plane config sets broad defaults
/// once and mentions only what differs on a host.
#[derive(Debug, PartialEq, Eq)]
pub struct HostConfigOverride {
    /// Agent settings override.
    pub agent: AgentSettingsOverride,
    /// Storage settings override.
    pub storage: StorageConfigOverride,
    /// Memory settings override.
    pub memory: MemoryConfigOverride,
    /// CPU settings override.
    pub cpu: CpuConfigOverride,
    /// Network settings override.
    pub network: NetworkConfigOverride,
    /// Disk I/O settings override.
    pub disk_io: DiskIoConfigOverride,
}

/// What a [`HostConfigOverride`] says.
#[verifier::ext_equal]
pub struct HostConfigOverrideView {
    pub agent: AgentSettingsOverride,
    pub storage: StorageConfigOverrideView,
    pub memory: MemoryConfigOverride,
    pub cpu: CpuConfigOverride,
    pub network: NetworkConfigOverride,
    pub disk_io: DiskIoConfigOverride,
}

impl View for HostConfigOverride {
    type V = HostConfigOverrideView;

    open spec fn view(&self) -> HostConfigOverrideView {
        HostConfigOverrideView {
            agent: self.agent,
            storage: self.storage@,
            memory: self.memory,
            cpu: self.cpu,
            network: self.network,
            disk_io: self.disk_io,
        }
    }
}

/// A runtime config with an override applied. The version stays.
pub open spec fn overridden(
    by: HostConfigOverrideView,
    c: AgentRuntimeConfigView,
) -> AgentRuntimeConfigView {
    AgentRuntimeConfigView {
        version: c.version,
        agent: agent_overridden(by.agent, c.agent),
        storage: storage_overridden(by.storage, c.storage),
        memory: memory_overridden(by.memory, c.memory),
        cpu: cpu_overridden(by.cpu, c.cpu),
        network: network_overridden(by.network, c.network),
        disk_io: disk_io_overridden(by.disk_io, c.disk_io),
    }
}

/// The override that overrides nothing.
pub open spec fn no_override() -> HostConfigOverrideView {
    HostConfigOverrideView {
        agent: AgentSettingsOverride {
            config_poll_interval_seconds: None,
            heartbeat_interval_seconds: None,
        },
        storage: StorageConfigOverrideView { enabled: None, interval_seconds: None, mounts: None },
        memory: MemoryConfigOverride { enabled: None, interval_seconds: None },
        cpu: CpuConfigOverride { enabled: None, interval_seconds: None },
        network: NetworkConfigOverride { enabled: None, interval_seconds: None },
        disk_io: DiskIoConfigOverride { enabled: None, interval_seconds: None },
    }
}

/// One override that does what two do in turn.
pub open spec fn merged(
    first: HostConfigOverrideView,
    second: HostConfigOverrideView,
) -> HostConfigOverrideView {
    HostConfigOverrideView {
        agent: AgentSettingsOverride {
            config_poll_interval_seconds: later(
                first.agent.config_poll_interval_seconds,
                second.agent.config_poll_interval_seconds,
            ),
            heartbeat_interval_seconds: later(
                first.agent.heartbeat_interval_seconds,
                second.agent.heartbeat_interval_seconds,
            ),
        },
        storage: StorageConfigOverrideView {
            enabled: later(first.storage.enabled, second.storage.enabled),
            interval_seconds: later(
                first.storage.interval_seconds,
                second.storage.interval_seconds,
            ),
            mounts: later(first.storage.mounts, second.storage.mounts),
        },
        memory: MemoryConfigOverride {
            enabled: later(first.memory.enabled, second.memory.enabled),
            interval_seconds: later(first.memory.interval_seconds, second.memory.interval_seconds),
        },
        cpu: CpuConfigOverride {
            enabled: later(first.cpu.enabled, second.cpu.enabled),
            interval_seconds: later(first.cpu.interval_seconds, second.cpu.interval_seconds),
        },
        network: NetworkConfigOverride {
            enabled: later(first.network.enabled, second.network.enabled),
            interval_seconds: later(
                first.network.interval_seconds,
                second.network.interval_seconds,
            ),
        },
        disk_io: DiskIoConfigOverride {
            enabled: later(first.disk_io.enabled, second.disk_io.enabled),
            interval_seconds: later(
                first.disk_io.interval_seconds,
                second.disk_io.interval_seconds,
            ),
        },
    }
}

impl HostConfigOverride {
    /// Applies the override to a runtime config.
    pub fn apply_to(&self, runtime: &mut AgentRuntimeConfig)
        ensures
            final(runtime)@ == overridden(self@, old(runtime)@),
    {
        self.agent.apply_to(&mut runtime.agent);
        self.storage.apply_to(&mut runtime.storage);
        self.memory.apply_to(&mut runtime.memory);
        self.cpu.apply_to(&mut runtime.cpu);
        self.network.apply_to(&mut runtime.network);
        self.disk_io.apply_to(&mut runtime.disk_io);
    }
}

impl Default for HostConfigOverride {
    fn default() -> (r: Self)
        ensures
            r@ == no_override(),
    {
        HostConfigOverride {
            agent: AgentSettingsOverride::default(),
            storage: StorageConfigOverride::default(),
            memory: MemoryConfigOverride::default(),
            cpu: CpuConfigOverride::default(),
            network: NetworkConfigOverride::default(),
            disk_io: DiskIoConfigOverride::default(),
        }
    }
}

impl Clone for HostConfigOverride {
    fn clone(&self) -> (r: Self)
        ensures
            r@ == self@,
    {
        HostConfigOverride {
            agent: self.agent,
            storage: self.storage.clone(),
            memory: self.memory,
            cpu: self.cpu,
            network: self.network,
            disk_io: self.disk_io,
        }
    }
}

/// The empty override changes nothing.
pub proof fn law_empty_override_changes_nothing(c: AgentRuntimeConfigView)
    ensures
        overridden(no_override(), c) == c,
{
}

/// Applying an override twice is applying it once.
pub proof fn law_override_is_idempotent(by: HostConfigOverrideView, c: AgentRuntimeConfigView)
    ensures
        overridden(by, overridden(by, c)) == overridden(by, c),
{
}

/// Two overrides in turn are one, in which a value of the second stands before
/// one of the first.
pub proof fn law_overrides_compose(
    first: HostConfigOverrideView,
    second: HostConfigOverrideView,
    c: AgentRuntimeConfigView,
)
    ensures
        overridden(second, overridden(first, c)) == overridden(merged(first, second), c),
{
}

/// Every setting that an override gives a value for has that value afterwards,
/// and every other setting, the version among them, keeps the value it had.
pub proof fn law_override_takes_effect(by: HostConfigOverrideView, c: AgentRuntimeConfigView)
    ensures
        ({
            let r = overridden(by, c);
            &&& by.agent.config_poll_interval_seconds matches Some(v)
                ==> r.agent.config_poll_interval_seconds == v
            &&& by.agent.config_poll_interval_seconds is None
                ==> r.agent.config_poll_interval_seconds
                == c.agent.config_poll_interval_seconds
            &&& by.agent.heartbeat_interval_seconds matches Some(v)
                ==> r.agent.heartbeat_interval_seconds == v
            &&& by.agent.heartbeat_interval_seconds is None ==> r.agent.heartbeat_interval_seconds
                == c.agent.heartbeat_interval_seconds
            &&& by.storage.enabled matches Some(v) ==> r.storage.enabled == v
            &&& by.storage.enabled is None ==> r.storage.enabled == c.storage.enabled
            &&& by.storage.interval_seconds matches Some(v) ==> r.storage.interval_seconds == v
            &&& by.storage.interval_seconds is None ==> r.storage.interval_seconds
                == c.storage.interval_seconds
            &&& by.storage.mounts matches Some(v) ==> r.storage.mounts == v
            &&& by.storage.mounts is None ==> r.storage.mounts == c.storage.mounts
            &&& by.memory.enabled matches Some(v) ==> r.memory.enabled == v
            &&& by.memory.enabled is None ==> r.memory.enabled == c.memory.enabled
            &&& by.memory.interval_seconds matches Some(v) ==> r.memory.interval_seconds == v
            &&& by.memory.interval_seconds is None ==> r.memory.interval_seconds
                == c.memory.interval_seconds
            &&& by.cpu.enabled matches Some(v) ==> r.cpu.enabled == v
            &&& by.cpu.enabled is None ==> r.cpu.enabled == c.cpu.enabled
            &&& by.cpu.interval_seconds matches Some(v) ==> r.cpu.interval_seconds == v
            &&& by.cpu.interval_seconds is None ==> r.cpu.interval_seconds == c.cpu.interval_seconds
            &&& by.network.enabled matches Some(v) ==> r.network.enabled == v
            &&& by.network.enabled is None ==> r.network.enabled == c.network.enabled
            &&& by.network.interval_seconds matches Some(v) ==> r.network.interval_seconds == v
            &&& by.network.interval_seconds is None ==> r.network.interval_seconds
                == c.network.interval_seconds
            &&& by.disk_io.enabled matches Some(v) ==> r.disk_io.enabled == v
            &&& by.disk_io.enabled is None ==> r.disk_io.enabled == c.disk_io.enabled
            &&& by.disk_io.interval_seconds matches Some(v) ==> r.disk_io.interval_seconds == v
            &&& by.disk_io.interval_seconds is None ==> r.disk_io.interval_seconds
                == c.disk_io.interval_seconds
            &&& r.version == c.version
        }),
{
}

} // verus!
