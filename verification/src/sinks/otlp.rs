//! Which instrument of the metrics export each sample goes to.

use vstd::prelude::*;

use crate::identity::AgentIdentity;
use crate::modules::cpu::{cpu_sample_views, CpuSnapshot, CPU_UTILIZATION_SAMPLE};
use crate::modules::disk_io::{
    disk_io_sample_views, DiskIoSample, DISK_ERRORS_SAMPLE, DISK_IN_FLIGHT_BYTES_SAMPLE,
    DISK_IO_SAMPLE, DISK_LATENCY_SAMPLE, DISK_OPERATIONS_SAMPLE, DISK_QUEUE_DEPTH_SAMPLE,
};
use crate::modules::memory::{
    memory_sample_views, MemorySample, MEMORY_USAGE_SAMPLE, MEMORY_UTILIZATION_SAMPLE,
    SWAP_IO_SAMPLE, SWAP_USAGE_SAMPLE, SWAP_UTILIZATION_SAMPLE,
};
use crate::modules::network::{network_sample_view, NetworkSample, NETWORK_IO_SAMPLE};
use crate::modules::storage::{
    filesystem_sample_views, FilesystemSampleView, FILESYSTEM_LIMIT_SAMPLE,
    FILESYSTEM_USAGE_SAMPLE, FILESYSTEM_UTILIZATION_SAMPLE,
};
use crate::pipeline::sample::{Sample, SampleValue, SampleView};
use crate::text::same_text;
use crate::text_map::lists;
use crate::time::Timestamp;

verus! {

/// The service name that metrics carry.
pub const SERVICE_NAME: &'static str = "talia-agent";

/// The service namespace that metrics carry.
pub const SERVICE_NAMESPACE: &'static str = "talia";

/// Attribute carrying the runtime config version.
pub const CONFIG_VERSION_ATTRIBUTE: &'static str = "talia.config.version";

/// What an instrument records.
#[derive(Clone, Copy, Debug, PartialEq, Eq, Structural)]
pub enum InstrumentKind {
    /// Adds counts up.
    Counter,
    /// Records unsigned values.
    GaugeU64,
    /// Records signed values.
    GaugeI64,
    /// Records fractional values.
    GaugeF64,
}

/// An instrument of the metrics export.
#[derive(Clone, Copy, Debug, PartialEq, Eq, Structural)]
pub enum Instrument {
    /// Filesystem bytes by state.
    FilesystemUsage,
    /// Total filesystem capacity.
    FilesystemLimit,
    /// Fraction of filesystem bytes used.
    FilesystemUtilization,
    /// Host memory bytes by state.
    MemoryUsage,
    /// Fraction of host memory that is not available.
    MemoryUtilization,
    /// Host swap bytes by state.
    SwapUsage,
    /// Fraction of host swap currently used.
    SwapUtilization,
    /// Host swap bytes moved in or out during the interval.
    SwapIo,
    /// Per-CPU utilization ratios from Talia eBPF scheduler accounting.
    CpuUtilization,
    /// Host-wide network bytes from Talia eBPF packet accounting.
    NetworkIo,
    /// Host-wide disk I/O bytes from Talia eBPF block accounting.
    DiskIo,
    /// Host-wide disk I/O operations from Talia eBPF block accounting.
    DiskOperations,
    /// Host-wide disk I/O errors from Talia eBPF block accounting.
    DiskErrors,
    /// Average disk I/O issue-to-completion latency.
    DiskLatency,
    /// Current in-flight disk I/O operations.
    DiskQueueDepth,
    /// Current in-flight disk I/O bytes.
    DiskInFlightBytes,
}

/// The kind of instrument that a value goes to.
pub open spec fn value_kind(value: SampleValue) -> InstrumentKind {
    match value {
        SampleValue::Counter(_) => InstrumentKind::Counter,
        SampleValue::GaugeU64(_) => InstrumentKind::GaugeU64,
        SampleValue::GaugeI64(_) => InstrumentKind::GaugeI64,
        SampleValue::GaugeF64(_) => InstrumentKind::GaugeF64,
    }
}

impl Instrument {
    /// The name of the samples that go to the instrument, which is also its own.
    pub open spec fn sample_name(self) -> Seq<char> {
        match self {
            Instrument::FilesystemUsage => FILESYSTEM_USAGE_SAMPLE@,
            Instrument::FilesystemLimit => FILESYSTEM_LIMIT_SAMPLE@,
            Instrument::FilesystemUtilization => FILESYSTEM_UTILIZATION_SAMPLE@,
            Instrument::MemoryUsage => MEMORY_USAGE_SAMPLE@,
            Instrument::MemoryUtilization => MEMORY_UTILIZATION_SAMPLE@,
            Instrument::SwapUsage => SWAP_USAGE_SAMPLE@,
            Instrument::SwapUtilization => SWAP_UTILIZATION_SAMPLE@,
            Instrument::SwapIo => SWAP_IO_SAMPLE@,
            Instrument::CpuUtilization => CPU_UTILIZATION_SAMPLE@,
            Instrument::NetworkIo => NETWORK_IO_SAMPLE@,
            Instrument::DiskIo => DISK_IO_SAMPLE@,
            Instrument::DiskOperations => DISK_OPERATIONS_SAMPLE@,
            Instrument::DiskErrors => DISK_ERRORS_SAMPLE@,
            Instrument::DiskLatency => DISK_LATENCY_SAMPLE@,
            Instrument::DiskQueueDepth => DISK_QUEUE_DEPTH_SAMPLE@,
            Instrument::DiskInFlightBytes => DISK_IN_FLIGHT_BYTES_SAMPLE@,
        }
    }

    /// What the instrument records.
    pub open spec fn records(self) -> InstrumentKind {
        match self {
            Instrument::FilesystemUsage => InstrumentKind::GaugeU64,
            Instrument::FilesystemLimit => InstrumentKind::GaugeU64,
            Instrument::FilesystemUtilization => InstrumentKind::GaugeF64,
            Instrument::MemoryUsage => InstrumentKind::GaugeU64,
            Instrument::MemoryUtilization => InstrumentKind::GaugeF64,
            Instrument::SwapUsage => InstrumentKind::GaugeU64,
            Instrument::SwapUtilization => InstrumentKind::GaugeF64,
            Instrument::SwapIo => InstrumentKind::Counter,
            Instrument::CpuUtilization => InstrumentKind::GaugeF64,
            Instrument::NetworkIo => InstrumentKind::Counter,
            Instrument::DiskIo => InstrumentKind::Counter,
            Instrument::DiskOperations => InstrumentKind::Counter,
            Instrument::DiskErrors => InstrumentKind::Counter,
            Instrument::DiskLatency => InstrumentKind::GaugeF64,
            Instrument::DiskQueueDepth => InstrumentKind::GaugeI64,
            Instrument::DiskInFlightBytes => InstrumentKind::GaugeI64,
        }
    }

    /// The unit of the instrument.
    pub open spec fn unit_text(self) -> Seq<char> {
        match self {
            Instrument::FilesystemUsage => "By"@,
            Instrument::FilesystemLimit => "By"@,
            Instrument::FilesystemUtilization => "1"@,
            Instrument::MemoryUsage => "By"@,
            Instrument::MemoryUtilization => "1"@,
            Instrument::SwapUsage => "By"@,
            Instrument::SwapUtilization => "1"@,
            Instrument::SwapIo => "By"@,
            Instrument::CpuUtilization => "1"@,
            Instrument::NetworkIo => "By"@,
            Instrument::DiskIo => "By"@,
            Instrument::DiskOperations => "{operation}"@,
            Instrument::DiskErrors => "{error}"@,
            Instrument::DiskLatency => "ms"@,
            Instrument::DiskQueueDepth => "{operation}"@,
            Instrument::DiskInFlightBytes => "By"@,
        }
    }

    /// What the instrument is said to measure.
    pub open spec fn description_text(self) -> Seq<char> {
        match self {
            Instrument::FilesystemUsage => "Filesystem bytes by state."@,
            Instrument::FilesystemLimit => "Total filesystem capacity."@,
            Instrument::FilesystemUtilization => "Fraction of filesystem bytes used."@,
            Instrument::MemoryUsage => "Host memory bytes by state."@,
            Instrument::MemoryUtilization => "Fraction of host memory that is not available."@,
            Instrument::SwapUsage => "Host swap bytes by state."@,
            Instrument::SwapUtilization => "Fraction of host swap currently used."@,
            Instrument::SwapIo => "Host swap bytes moved in or out during the interval."@,
            Instrument::CpuUtilization =>
                "Per-CPU utilization ratios from Talia eBPF scheduler accounting."@,
            Instrument::NetworkIo => "Host-wide network bytes from Talia eBPF packet accounting."@,
            Instrument::DiskIo => "Host-wide disk I/O bytes from Talia eBPF block accounting."@,
            Instrument::DiskOperations =>
                "Host-wide disk I/O operations from Talia eBPF block accounting."@,
            Instrument::DiskErrors =>
                "Host-wide disk I/O errors from Talia eBPF block accounting."@,
            Instrument::DiskLatency => "Average disk I/O issue-to-completion latency."@,
            Instrument::DiskQueueDepth => "Current in-flight disk I/O operations."@,
            Instrument::DiskInFlightBytes => "Current in-flight disk I/O bytes."@,
        }
    }

    /// Whether a sample goes to the instrument.
    pub open spec fn takes(self, name: Seq<char>, value: SampleValue) -> bool {
        self.sample_name() == name && self.records() == value_kind(value)
    }

    /// The name of the instrument.
    pub fn name(self) -> (r: &'static str)
        ensures
            r@ == self.sample_name(),
    {
        match self {
            Instrument::FilesystemUsage => FILESYSTEM_USAGE_SAMPLE,
            Instrument::FilesystemLimit => FILESYSTEM_LIMIT_SAMPLE,
            Instrument::FilesystemUtilization => FILESYSTEM_UTILIZATION_SAMPLE,
            Instrument::MemoryUsage => MEMORY_USAGE_SAMPLE,
            Instrument::MemoryUtilization => MEMORY_UTILIZATION_SAMPLE,
            Instrument::SwapUsage => SWAP_USAGE_SAMPLE,
            Instrument::SwapUtilization => SWAP_UTILIZATION_SAMPLE,
            Instrument::SwapIo => SWAP_IO_SAMPLE,
            Instrument::CpuUtilization => CPU_UTILIZATION_SAMPLE,
            Instrument::NetworkIo => NETWORK_IO_SAMPLE,
            Instrument::DiskIo => DISK_IO_SAMPLE,
            Instrument::DiskOperations => DISK_OPERATIONS_SAMPLE,
            Instrument::DiskErrors => DISK_ERRORS_SAMPLE,
            Instrument::DiskLatency => DISK_LATENCY_SAMPLE,
            Instrument::DiskQueueDepth => DISK_QUEUE_DEPTH_SAMPLE,
            Instrument::DiskInFlightBytes => DISK_IN_FLIGHT_BYTES_SAMPLE,
        }
    }

    /// What the instrument records.
    pub fn kind(self) -> (r: InstrumentKind)
        ensures
            r == self.records(),
    {
        match self {
            Instrument::FilesystemUsage => InstrumentKind::GaugeU64,
            Instrument::FilesystemLimit => InstrumentKind::GaugeU64,
            Instrument::FilesystemUtilization => InstrumentKind::GaugeF64,
            Instrument::MemoryUsage => InstrumentKind::GaugeU64,
            Instrument::MemoryUtilization => InstrumentKind::GaugeF64,
            Instrument::SwapUsage => InstrumentKind::GaugeU64,
            Instrument::SwapUtilization => InstrumentKind::GaugeF64,
            Instrument::SwapIo => InstrumentKind::Counter,
            Instrument::CpuUtilization => InstrumentKind::GaugeF64,
            Instrument::NetworkIo => InstrumentKind::Counter,
            Instrument::DiskIo => InstrumentKind::Counter,
            Instrument::DiskOperations => InstrumentKind::Counter,
            Instrument::DiskErrors => InstrumentKind::Counter,
            Instrument::DiskLatency => InstrumentKind::GaugeF64,
            Instrument::DiskQueueDepth => InstrumentKind::GaugeI64,
            Instrument::DiskInFlightBytes => InstrumentKind::GaugeI64,
        }
    }

    /// The unit of the instrument.
    pub fn unit(self) -> (r: &'static str)
        ensures
            r@ == self.unit_text(),
    {
        match self {
            Instrument::FilesystemUsage => "By",
            Instrument::FilesystemLimit => "By",
            Instrument::FilesystemUtilization => "1",
            Instrument::MemoryUsage => "By",
            Instrument::MemoryUtilization => "1",
            Instrument::SwapUsage => "By",
            Instrument::SwapUtilization => "1",
            Instrument::SwapIo => "By",
            Instrument::CpuUtilization => "1",
            Instrument::NetworkIo => "By",
            Instrument::DiskIo => "By",
            Instrument::DiskOperations => "{operation}",
            Instrument::DiskErrors => "{error}",
            Instrument::DiskLatency => "ms",
            Instrument::DiskQueueDepth => "{operation}",
            Instrument::DiskInFlightBytes => "By",
        }
    }

    /// What the instrument is said to measure.
    pub fn description(self) -> (r: &'static str)
        ensures
            r@ == self.description_text(),
    {
        match self {
            Instrument::FilesystemUsage => "Filesystem bytes by state.",
            Instrument::FilesystemLimit => "Total filesystem capacity.",
            Instrument::FilesystemUtilization => "Fraction of filesystem bytes used.",
            Instrument::MemoryUsage => "Host memory bytes by state.",
            Instrument::MemoryUtilization => "Fraction of host memory that is not available.",
            Instrument::SwapUsage => "Host swap bytes by state.",
            Instrument::SwapUtilization => "Fraction of host swap currently used.",
            Instrument::SwapIo => "Host swap bytes moved in or out during the interval.",
            Instrument::CpuUtilization =>
                "Per-CPU utilization ratios from Talia eBPF scheduler accounting.",
            Instrument::NetworkIo => "Host-wide network bytes from Talia eBPF packet accounting.",
            Instrument::DiskIo => "Host-wide disk I/O bytes from Talia eBPF block accounting.",
            Instrument::DiskOperations =>
                "Host-wide disk I/O operations from Talia eBPF block accounting.",
            Instrument::DiskErrors => "Host-wide disk I/O errors from Talia eBPF block accounting.",
            Instrument::DiskLatency => "Average disk I/O issue-to-completion latency.",
            Instrument::DiskQueueDepth => "Current in-flight disk I/O operations.",
            Instrument::DiskInFlightBytes => "Current in-flight disk I/O bytes.",
        }
    }
}

/// All instruments.
pub open spec fn all_instruments() -> Seq<Instrument> {
    seq![
        Instrument::FilesystemUsage,
        Instrument::FilesystemLimit,
        Instrument::FilesystemUtilization,
        Instrument::MemoryUsage,
        Instrument::MemoryUtilization,
        Instrument::SwapUsage,
        Instrument::SwapUtilization,
        Instrument::SwapIo,
        Instrument::CpuUtilization,
        Instrument::NetworkIo,
        Instrument::DiskIo,
        Instrument::DiskOperations,
        Instrument::DiskErrors,
        Instrument::DiskLatency,
        Instrument::DiskQueueDepth,
        Instrument::DiskInFlightBytes,
    ]
}

/// Lists all instruments.
pub fn instruments() -> (r: Vec<Instrument>)
    ensures
        r@ == all_instruments(),
{
    let list: Vec<Instrument> = vec![
        Instrument::FilesystemUsage,
        Instrument::FilesystemLimit,
        Instrument::FilesystemUtilization,
        Instrument::MemoryUsage,
        Instrument::MemoryUtilization,
        Instrument::SwapUsage,
        Instrument::SwapUtilization,
        Instrument::SwapIo,
        Instrument::CpuUtilization,
        Instrument::NetworkIo,
        Instrument::DiskIo,
        Instrument::DiskOperations,
        Instrument::DiskErrors,
        Instrument::DiskLatency,
        Instrument::DiskQueueDepth,
        Instrument::DiskInFlightBytes,
    ];
    assert(list@ =~= all_instruments());
    list
}

fn kind_of(value: SampleValue) -> (r: InstrumentKind)
    ensures
        r == value_kind(value),
{
    match value {
        SampleValue::Counter(_) => InstrumentKind::Counter,
        SampleValue::GaugeU64(_) => InstrumentKind::GaugeU64,
        SampleValue::GaugeI64(_) => InstrumentKind::GaugeI64,
        SampleValue::GaugeF64(_) => InstrumentKind::GaugeF64,
    }
}

/// Finds the instrument that a sample goes to: the one of its name, where that
/// records values of its kind. Other samples are dropped.
pub fn instrument_for(sample: &Sample) -> (r: Option<Instrument>)
    ensures
        match r {
            Some(instrument) => instrument.takes(sample@.name, sample@.value),
            None => forall|instrument: Instrument|
                !#[trigger] instrument.takes(sample@.name, sample@.value),
        },
{
    let list = instruments();
    let n: usize = list.len();
    let kind = kind_of(sample.value);
    for i in 0..n
        invariant
            n == list@.len(),
            list@ == all_instruments(),
            kind == value_kind(sample@.value),
            forall|k: int|
                0 <= k < i ==> !(#[trigger] all_instruments()[k]).takes(
                    sample@.name,
                    sample@.value,
                ),
    {
        let instrument = list[i];
        if instrument.kind() == kind && same_text(instrument.name(), sample.name.as_str()) {
            return Some(instrument);
        }
    }
    assert forall|instrument: Instrument| !#[trigger] instrument.takes(
        sample@.name,
        sample@.value,
    ) by {
        let k = lemma_instrument_listed(instrument);
        assert(!all_instruments()[k].takes(sample@.name, sample@.value));
    }
    None
}

proof fn lemma_instrument_listed(instrument: Instrument) -> (k: int)
    ensures
        0 <= k < all_instruments().len(),
        all_instruments()[k] == instrument,
{
    match instrument {
        Instrument::FilesystemUsage => 0,
        Instrument::FilesystemLimit => 1,
        Instrument::FilesystemUtilization => 2,
        Instrument::MemoryUsage => 3,
        Instrument::MemoryUtilization => 4,
        Instrument::SwapUsage => 5,
        Instrument::SwapUtilization => 6,
        Instrument::SwapIo => 7,
        Instrument::CpuUtilization => 8,
        Instrument::NetworkIo => 9,
        Instrument::DiskIo => 10,
        Instrument::DiskOperations => 11,
        Instrument::DiskErrors => 12,
        Instrument::DiskLatency => 13,
        Instrument::DiskQueueDepth => 14,
        Instrument::DiskInFlightBytes => 15,
    }
}

/// An attribute of an exported metric.
#[derive(Debug, PartialEq, Eq)]
pub struct Attribute {
    /// The key.
    pub key: String,
    /// The value.
    pub value: String,
}

/// What an [`Attribute`] says.
pub open spec fn attribute_views(list: Seq<Attribute>) -> Seq<(Seq<char>, Seq<char>)> {
    list.map_values(|a: Attribute| (a.key@, a.value@))
}

/// The attributes that a sample is exported with: its own, in the order of their
/// keys, and the config version last.
pub open spec fn exported_attributes(
    own: Seq<(Seq<char>, String)>,
    config_version: Seq<char>,
) -> Seq<(Seq<char>, Seq<char>)> {
    own.map_values(|e: (Seq<char>, String)| (e.0, e.1@)).push(
        (CONFIG_VERSION_ATTRIBUTE@, config_version),
    )
}

/// Builds the attributes that a sample is exported with: its own dimensions and
/// the config version.
pub fn sample_attributes(config_version: &str, sample: &Sample) -> (r: Vec<Attribute>)
    ensures
        lists(sample.attributes.listing(), sample.attributes@),
        attribute_views(r@) == exported_attributes(
            sample.attributes.listing(),
            config_version@,
        ),
{
    let n: usize = sample.attributes.len();
    let mut attributes: Vec<Attribute> = Vec::new();
    for i in 0..n
        invariant
            n == sample.attributes.listing().len(),
            attributes@.len() == i,
            forall|k: int|
                0 <= k < i ==> {
                    &&& (#[trigger] attributes@[k]).key@ == sample.attributes.listing()[k].0
                    &&& attributes@[k].value@ == sample.attributes.listing()[k].1@
                },
    {
        attributes.push(
            Attribute {
                key: sample.attributes.key_at(i).clone(),
                value: sample.attributes.value_at(i).clone(),
            },
        );
    }
    attributes.push(
        Attribute {
            key: CONFIG_VERSION_ATTRIBUTE.to_string(),
            value: config_version.to_string(),
        },
    );
    assert(attribute_views(attributes@) =~= exported_attributes(
        sample.attributes.listing(),
        config_version@,
    ));
    attributes
}

/// What is exported of a sample.
#[derive(Debug)]
pub struct Export {
    /// The instrument that the value goes to.
    pub instrument: Instrument,
    /// The value.
    pub value: SampleValue,
    /// The attributes that go with it.
    pub attributes: Vec<Attribute>,
}

/// Decides what is exported of a sample: its value and attributes, through the
/// instrument of its name. A sample that no instrument takes is dropped.
pub fn export(sample: &Sample, config_version: &str) -> (r: Option<Export>)
    ensures
        r is Some <==> is_exported(sample@),
        r matches Some(e) ==> {
            &&& e.instrument.takes(sample@.name, sample@.value)
            &&& e.value == sample@.value
            &&& lists(sample.attributes.listing(), sample.attributes@)
            &&& attribute_views(e.attributes@) == exported_attributes(
                sample.attributes.listing(),
                config_version@,
            )
        },
{
    match instrument_for(sample) {
        Some(instrument) => {
            assert(instrument.takes(sample@.name, sample@.value));
            Some(
                Export {
                    instrument,
                    value: sample.value,
                    attributes: sample_attributes(config_version, sample),
                },
            )
        },
        None => None,
    }
}

/// The attributes that identify the agent as the source of its metrics.
pub open spec fn resource_attributes(agent_version: Seq<char>, hostname: Seq<char>) -> Seq<
    (Seq<char>, Seq<char>),
> {
    seq![
        ("service.name"@, SERVICE_NAME@),
        ("service.namespace"@, SERVICE_NAMESPACE@),
        ("service.version"@, agent_version),
        ("host.name"@, hostname),
    ]
}

/// Builds the attributes that identify the agent as the source of its metrics.
pub fn metrics_resource(identity: &AgentIdentity, agent_version: &str) -> (r: Vec<Attribute>)
    ensures
        attribute_views(r@) == resource_attributes(agent_version@, identity.hostname@),
{
    let list: Vec<Attribute> = vec![
        Attribute { key: "service.name".to_string(), value: SERVICE_NAME.to_string() },
        Attribute { key: "service.namespace".to_string(), value: SERVICE_NAMESPACE.to_string() },
        Attribute { key: "service.version".to_string(), value: agent_version.to_string() },
        Attribute { key: "host.name".to_string(), value: identity.hostname.clone() },
    ];
    assert(attribute_views(list@) =~= resource_attributes(agent_version@, identity.hostname@));
    list
}

// ---------------------------------------------------------------------------
// Laws
// ---------------------------------------------------------------------------

/// A sample goes to one instrument at most.
pub proof fn law_instrument_is_unique(
    a: Instrument,
    b: Instrument,
    name: Seq<char>,
    value: SampleValue,
)
    requires
        a.takes(name, value),
        b.takes(name, value),
    ensures
        a == b,
{
    reveal_strlit("system.filesystem.usage");
    reveal_strlit("system.filesystem.limit");
    reveal_strlit("system.filesystem.utilization");
    reveal_strlit("system.memory.usage");
    reveal_strlit("system.memory.utilization");
    reveal_strlit("system.linux.memory.swap.usage");
    reveal_strlit("system.linux.memory.swap.utilization");
    reveal_strlit("system.linux.memory.swap.io");
    reveal_strlit("system.cpu.utilization");
    reveal_strlit("system.network.io");
    reveal_strlit("system.disk.io");
    reveal_strlit("system.disk.operations");
    reveal_strlit("system.disk.errors");
    reveal_strlit("system.disk.io.latency");
    reveal_strlit("system.disk.io.queue_depth");
    reveal_strlit("system.disk.io.in_flight");
    assert(FILESYSTEM_USAGE_SAMPLE@.len() == 23);
    assert(FILESYSTEM_LIMIT_SAMPLE@.len() == 23);
    assert(FILESYSTEM_UTILIZATION_SAMPLE@.len() == 29);
    assert(MEMORY_USAGE_SAMPLE@.len() == 19);
    assert(MEMORY_UTILIZATION_SAMPLE@.len() == 25);
    assert(SWAP_USAGE_SAMPLE@.len() == 30);
    assert(SWAP_UTILIZATION_SAMPLE@.len() == 36);
    assert(SWAP_IO_SAMPLE@.len() == 27);
    assert(CPU_UTILIZATION_SAMPLE@.len() == 22);
    assert(NETWORK_IO_SAMPLE@.len() == 17);
    assert(DISK_IO_SAMPLE@.len() == 14);
    assert(DISK_OPERATIONS_SAMPLE@.len() == 22);
    assert(DISK_ERRORS_SAMPLE@.len() == 18);
    assert(DISK_LATENCY_SAMPLE@.len() == 22);
    assert(DISK_QUEUE_DEPTH_SAMPLE@.len() == 26);
    assert(DISK_IN_FLIGHT_BYTES_SAMPLE@.len() == 24);
    assert(FILESYSTEM_USAGE_SAMPLE@[18] == 'u');
    assert(FILESYSTEM_LIMIT_SAMPLE@[18] == 'l');
    assert(CPU_UTILIZATION_SAMPLE@[7] == 'c');
    assert(DISK_LATENCY_SAMPLE@[7] == 'd');
}

/// Whether some instrument takes a sample.
pub open spec fn is_exported(sample: SampleView) -> bool {
    exists|instrument: Instrument| #[trigger] instrument.takes(sample.name, sample.value)
}

/// Every sample that the providers make has an instrument: none is dropped.
pub proof fn law_every_provider_sample_is_exported(
    cpu: CpuSnapshot,
    network: NetworkSample,
    disk_io: DiskIoSample,
    memory: MemorySample,
    storage: FilesystemSampleView,
    t: Timestamp,
)
    ensures
        forall|i: int|
            0 <= i < cpu_sample_views(cpu, t).len() ==> is_exported(
                #[trigger] cpu_sample_views(cpu, t)[i],
            ),
        is_exported(network_sample_view(network, t)),
        forall|i: int|
            0 <= i < disk_io_sample_views(disk_io, t).len() ==> is_exported(
                #[trigger] disk_io_sample_views(disk_io, t)[i],
            ),
        forall|i: int|
            0 <= i < memory_sample_views(memory, t).len() ==> is_exported(
                #[trigger] memory_sample_views(memory, t)[i],
            ),
        forall|i: int|
            0 <= i < filesystem_sample_views(storage, t).len() ==> is_exported(
                #[trigger] filesystem_sample_views(storage, t)[i],
            ),
{
    assert forall|i: int| 0 <= i < cpu_sample_views(cpu, t).len() implies is_exported(
        #[trigger] cpu_sample_views(cpu, t)[i],
    ) by {
        let sample = cpu_sample_views(cpu, t)[i];
        assert(Instrument::CpuUtilization.takes(sample.name, sample.value));
    }
    let sample = network_sample_view(network, t);
    assert(Instrument::NetworkIo.takes(sample.name, sample.value));
    assert forall|i: int| 0 <= i < disk_io_sample_views(disk_io, t).len() implies is_exported(
        #[trigger] disk_io_sample_views(disk_io, t)[i],
    ) by {
        let sample = disk_io_sample_views(disk_io, t)[i];
        assert(Instrument::DiskIo.takes(sample.name, sample.value)
            || Instrument::DiskOperations.takes(sample.name, sample.value)
            || Instrument::DiskErrors.takes(sample.name, sample.value)
            || Instrument::DiskLatency.takes(sample.name, sample.value)
            || Instrument::DiskQueueDepth.takes(sample.name, sample.value)
            || Instrument::DiskInFlightBytes.takes(sample.name, sample.value));
    }
    assert forall|i: int| 0 <= i < memory_sample_views(memory, t).len() implies is_exported(
        #[trigger] memory_sample_views(memory, t)[i],
    ) by {
        let sample = memory_sample_views(memory, t)[i];
        assert(Instrument::MemoryUsage.takes(sample.name, sample.value)
            || Instrument::MemoryUtilization.takes(sample.name, sample.value)
            || Instrument::SwapUsage.takes(sample.name, sample.value)
            || Instrument::SwapUtilization.takes(sample.name, sample.value)
            || Instrument::SwapIo.takes(sample.name, sample.value));
    }
    assert forall|i: int| 0 <= i < filesystem_sample_views(storage, t).len() implies is_exported(
        #[trigger] filesystem_sample_views(storage, t)[i],
    ) by {
        let sample = filesystem_sample_views(storage, t)[i];
        assert(Instrument::FilesystemLimit.takes(sample.name, sample.value)
            || Instrument::FilesystemUsage.takes(sample.name, sample.value)
            || Instrument::FilesystemUtilization.takes(sample.name, sample.value));
    }
}

/// Metrics do not tell agents apart by their persistent ids: two agents on hosts
/// of one name are the same source.
pub proof fn law_metrics_do_not_carry_the_agent_id(
    a: AgentIdentity,
    b: AgentIdentity,
    agent_version: Seq<char>,
)
    requires
        a.hostname@ == b.hostname@,
    ensures
        resource_attributes(agent_version, a.hostname@) == resource_attributes(
            agent_version,
            b.hostname@,
        ),
{
}

/// Every attribute of a sample is exported under its key, and the config version
/// is exported with every sample, last.
pub proof fn law_own_attributes_are_exported(
    own: Seq<(Seq<char>, String)>,
    config_version: Seq<char>,
    i: int,
)
    requires
        0 <= i < own.len(),
    ensures
        exported_attributes(own, config_version)[i] == (own[i].0, own[i].1@),
        exported_attributes(own, config_version).len() == own.len() + 1,
        exported_attributes(own, config_version).last() == (
            CONFIG_VERSION_ATTRIBUTE@,
            config_version,
        ),
{
}

/// Each instrument takes the samples of one name, with the kind of value that is
/// measured under it, in the unit that goes with it.
pub proof fn law_instruments_take_their_own_samples(
    i: Instrument,
    name: Seq<char>,
    value: SampleValue,
)
    ensures
        match i {
            Instrument::FilesystemUsage => {
                &&& i.takes(name, value) <==> name == "system.filesystem.usage"@
                    && value is GaugeU64
                &&& i.unit_text() == "By"@
            },
            Instrument::FilesystemLimit => {
                &&& i.takes(name, value) <==> name == "system.filesystem.limit"@
                    && value is GaugeU64
                &&& i.unit_text() == "By"@
            },
            Instrument::FilesystemUtilization => {
                &&& i.takes(name, value) <==> name == "system.filesystem.utilization"@
                    && value is GaugeF64
                &&& i.unit_text() == "1"@
            },
            Instrument::MemoryUsage => {
                &&& i.takes(name, value) <==> name == "system.memory.usage"@ && value is GaugeU64
                &&& i.unit_text() == "By"@
            },
            Instrument::MemoryUtilization => {
                &&& i.takes(name, value) <==> name == "system.memory.utilization"@
                    && value is GaugeF64
                &&& i.unit_text() == "1"@
            },
            Instrument::SwapUsage => {
                &&& i.takes(name, value) <==> name == "system.linux.memory.swap.usage"@
                    && value is GaugeU64
                &&& i.unit_text() == "By"@
            },
            Instrument::SwapUtilization => {
                &&& i.takes(name, value) <==> name == "system.linux.memory.swap.utilization"@
                    && value is GaugeF64
                &&& i.unit_text() == "1"@
            },
            Instrument::SwapIo => {
                &&& i.takes(name, value) <==> name == "system.linux.memory.swap.io"@
                    && value is Counter
                &&& i.unit_text() == "By"@
            },
            Instrument::CpuUtilization => {
                &&& i.takes(name, value) <==> name == "system.cpu.utilization"@ && value is GaugeF64
                &&& i.unit_text() == "1"@
            },
            Instrument::NetworkIo => {
                &&& i.takes(name, value) <==> name == "system.network.io"@ && value is Counter
                &&& i.unit_text() == "By"@
            },
            Instrument::DiskIo => {
                &&& i.takes(name, value) <==> name == "system.disk.io"@ && value is Counter
                &&& i.unit_text() == "By"@
            },
            Instrument::DiskOperations => {
                &&& i.takes(name, value) <==> name == "system.disk.operations"@ && value is Counter
                &&& i.unit_text() == "{operation}"@
            },
            Instrument::DiskErrors => {
                &&& i.takes(name, value) <==> name == "system.disk.errors"@ && value is Counter
                &&& i.unit_text() == "{error}"@
            },
            Instrument::DiskLatency => {
                &&& i.takes(name, value) <==> name == "system.disk.io.latency"@ && value is GaugeF64
                &&& i.unit_text() == "ms"@
            },
            Instrument::DiskQueueDepth => {
                &&& i.takes(name, value) <==> name == "system.disk.io.queue_depth"@
                    && value is GaugeI64
                &&& i.unit_text() == "{operation}"@
            },
            Instrument::DiskInFlightBytes => {
                &&& i.takes(name, value) <==> name == "system.disk.io.in_flight"@
                    && value is GaugeI64
                &&& i.unit_text() == "By"@
            },
        },
{
}

/// Every sample is exported with its own attributes, in order, and then the config
/// version under its own key.
pub proof fn law_config_version_comes_last(
    own: Seq<(Seq<char>, String)>,
    config_version: Seq<char>,
)
    ensures
        ({
            let all = exported_attributes(own, config_version);
            &&& all.len() == own.len() + 1
            &&& all[own.len() as int] == ("talia.config.version"@, config_version)
            &&& forall|i: int|
                0 <= i < own.len() ==> (#[trigger] all[i]).0 == own[i].0 && all[i].1 == own[i].1@
        }),
{
}

/// Metrics name the service, its namespace, the version of the agent and the host,
/// and nothing else of their source.
pub proof fn law_metrics_name_their_source(agent_version: Seq<char>, hostname: Seq<char>)
    ensures
        resource_attributes(agent_version, hostname) == seq![
            ("service.name"@, "talia-agent"@),
            ("service.namespace"@, "talia"@),
            ("service.version"@, agent_version),
            ("host.name"@, hostname),
        ],
{
}

} // verus!
