//! Disk I/O by block request accounting.

use std::collections::BTreeMap;

use vstd::prelude::*;

use crate::modules::counter::{
    add_signed_capped, capped_signed_sum, capped_sum, growth, remember,
};
use crate::modules::key::{key_number, number_of_key};
use crate::pipeline::sample::{
    append_samples, gives, one_attribute, samples_of, Measure, Sample, SampleValue, SampleView,
};
use crate::time::{Duration, Timestamp};

verus! {

/// Sample name for disk I/O bytes, split by the `disk.io.direction`
/// attribute (`read`, `write`).
pub const DISK_IO_SAMPLE: &'static str = "system.disk.io";

/// Sample name for disk I/O operations, split by direction.
pub const DISK_OPERATIONS_SAMPLE: &'static str = "system.disk.operations";

/// Sample name for disk I/O errors, split by direction.
pub const DISK_ERRORS_SAMPLE: &'static str = "system.disk.errors";

/// Sample name for average issue-to-completion latency in milliseconds,
/// split by direction. Only emitted when the window completed operations.
pub const DISK_LATENCY_SAMPLE: &'static str = "system.disk.io.latency";

/// Sample name for the current in-flight operation count, split by direction.
pub const DISK_QUEUE_DEPTH_SAMPLE: &'static str = "system.disk.io.queue_depth";

/// Sample name for the current in-flight bytes, split by direction.
pub const DISK_IN_FLIGHT_BYTES_SAMPLE: &'static str = "system.disk.io.in_flight";

/// Attribute carrying the I/O direction.
pub const DISK_DIRECTION_ATTRIBUTE: &'static str = "disk.io.direction";

/// Disk I/O direction.
#[derive(Clone, Copy, Debug, PartialEq, Eq, Structural)]
pub enum DiskIoDirection {
    /// Bytes read from block devices.
    Read,
    /// Bytes written to block devices.
    Write,
}

impl DiskIoDirection {
    /// The OpenTelemetry direction attribute value.
    pub open spec fn text(self) -> Seq<char> {
        match self {
            DiskIoDirection::Read => "read"@,
            DiskIoDirection::Write => "write"@,
        }
    }

    /// Returns the OpenTelemetry direction attribute value.
    pub fn as_str(self) -> (r: &'static str)
        ensures
            r@ == self.text(),
    {
        match self {
            DiskIoDirection::Read => "read",
            DiskIoDirection::Write => "write",
        }
    }
}

/// One host-wide disk I/O sample.
#[derive(Clone, Copy, Debug, PartialEq, Eq, Structural)]
pub struct DiskIoSample {
    /// I/O direction.
    pub direction: DiskIoDirection,
    /// Bytes observed during the sampling window.
    pub bytes: u64,
    /// Operations observed during the sampling window.
    pub operations: u64,
    /// Errors observed during the sampling window.
    pub errors: u64,
    /// Average issue-to-completion latency for completed operations.
    pub average_latency: Option<Duration>,
    /// Current in-flight request count for this direction.
    pub in_flight_operations: i64,
    /// Current in-flight request bytes for this direction.
    pub in_flight_bytes: i64,
}

/// Disk I/O samples for one collection window.
#[derive(Debug, PartialEq)]
pub struct DiskIoSnapshot {
    /// Sampling window represented by these samples.
    pub window_duration: Duration,
    /// Host-wide disk I/O samples.
    pub samples: Vec<DiskIoSample>,
}

/// What the kernel side keeps counters by.
#[derive(Clone, Copy, Debug)]
pub struct RawDiskIoKey {
    /// 1 for bytes read, 2 for bytes written.
    pub direction: u8,
    /// Filler.
    pub _pad: [u8; 7],
}

impl RawDiskIoKey {
    /// The direction that the key stands for, where it stands for one.
    pub open spec fn means(self) -> Option<DiskIoDirection> {
        if self.direction == 1 {
            Some(DiskIoDirection::Read)
        } else if self.direction == 2 {
            Some(DiskIoDirection::Write)
        } else {
            None
        }
    }

    /// The number that stands for the key.
    pub open spec fn number(self) -> u64 {
        key_number(self.direction, self._pad) as u64
    }

    /// Decodes the direction, where the key stands for one.
    pub fn direction(self) -> (r: Option<DiskIoDirection>)
        ensures
            r == self.means(),
    {
        match self.direction {
            1 => Some(DiskIoDirection::Read),
            2 => Some(DiskIoDirection::Write),
            _ => None,
        }
    }
}

/// What the kernel side counts for one key on one CPU.
#[derive(Clone, Copy, Debug, Default, PartialEq, Eq, Structural)]
pub struct RawDiskIoCounters {
    /// Bytes moved.
    pub bytes: u64,
    /// Operations completed.
    pub operations: u64,
    /// Time from issue to completion, of all operations together.
    pub latency_ns: u64,
    /// Operations failed.
    pub errors: u64,
    /// Bytes in flight. One CPU may see a request issued and another see it
    /// completed, so that a single count can be negative.
    pub in_flight_bytes: i64,
    /// Operations in flight.
    pub in_flight_operations: i64,
}

/// Counters that have counted nothing.
pub open spec fn zero_disk_io_counters() -> RawDiskIoCounters {
    RawDiskIoCounters {
        bytes: 0,
        operations: 0,
        latency_ns: 0,
        errors: 0,
        in_flight_bytes: 0,
        in_flight_operations: 0,
    }
}

/// The counters of all CPUs together.
pub open spec fn summed_disk_io(counters: Seq<RawDiskIoCounters>) -> RawDiskIoCounters
    decreases counters.len(),
{
    if counters.len() == 0 {
        zero_disk_io_counters()
    } else {
        let total = summed_disk_io(counters.drop_last());
        let last = counters.last();
        RawDiskIoCounters {
            bytes: capped_sum(total.bytes, last.bytes),
            operations: capped_sum(total.operations, last.operations),
            latency_ns: capped_sum(total.latency_ns, last.latency_ns),
            errors: capped_sum(total.errors, last.errors),
            in_flight_bytes: capped_signed_sum(total.in_flight_bytes, last.in_flight_bytes),
            in_flight_operations: capped_signed_sum(
                total.in_flight_operations,
                last.in_flight_operations,
            ),
        }
    }
}

/// Adds the counters of all CPUs up.
pub fn sum_counters(counters: &Vec<RawDiskIoCounters>) -> (r: RawDiskIoCounters)
    ensures
        r == summed_disk_io(counters@),
{
    let n: usize = counters.len();
    let mut total = RawDiskIoCounters {
        bytes: 0,
        operations: 0,
        latency_ns: 0,
        errors: 0,
        in_flight_bytes: 0,
        in_flight_operations: 0,
    };
    for i in 0..n
        invariant
            n == counters@.len(),
            total == summed_disk_io(counters@.take(i as int)),
    {
        let value: RawDiskIoCounters = counters[i];
        assert(counters@.take(i + 1).drop_last() =~= counters@.take(i as int));
        total =
        RawDiskIoCounters {
            bytes: total.bytes.saturating_add(value.bytes),
            operations: total.operations.saturating_add(value.operations),
            latency_ns: total.latency_ns.saturating_add(value.latency_ns),
            errors: total.errors.saturating_add(value.errors),
            in_flight_bytes: add_signed_capped(total.in_flight_bytes, value.in_flight_bytes),
            in_flight_operations: add_signed_capped(
                total.in_flight_operations,
                value.in_flight_operations,
            ),
        };
    }
    assert(counters@.take(n as int) =~= counters@);
    total
}

/// The mean latency of some operations, where there were any, in whole
/// nanoseconds.
pub open spec fn mean_latency(latency_ns: u64, operations: u64) -> Option<Duration> {
    if operations == 0 {
        None
    } else {
        Some(Duration { nanos: (latency_ns / operations) as u128 })
    }
}

/// Computes the mean latency of some operations, where there were any.
pub fn average_latency(latency_ns: u64, operations: u64) -> (r: Option<Duration>)
    ensures
        r == mean_latency(latency_ns, operations),
{
    if operations == 0 {
        return None;
    }
    Some(Duration::from_nanos(latency_ns / operations))
}

/// What was read for one key: its counters on each CPU.
#[derive(Debug)]
pub struct DiskIoReading {
    /// The key.
    pub key: RawDiskIoKey,
    /// The counters on each CPU.
    pub counters: Vec<RawDiskIoCounters>,
}

/// What was last read for a key: nothing, where it has not been seen before.
pub open spec fn previous_disk_io(
    previous: Map<u64, RawDiskIoCounters>,
    key: u64,
) -> RawDiskIoCounters {
    if previous.contains_key(key) {
        previous[key]
    } else {
        zero_disk_io_counters()
    }
}

/// What was observed in one direction between two readings. Counts are those of
/// the time in between; what is in flight is what the later reading shows.
pub open spec fn disk_io_activity(
    direction: DiskIoDirection,
    current: RawDiskIoCounters,
    before: RawDiskIoCounters,
) -> DiskIoSample {
    let operations = growth(current.operations, before.operations);
    DiskIoSample {
        direction,
        bytes: growth(current.bytes, before.bytes),
        operations,
        errors: growth(current.errors, before.errors),
        average_latency: mean_latency(growth(current.latency_ns, before.latency_ns), operations),
        in_flight_operations: current.in_flight_operations,
        in_flight_bytes: current.in_flight_bytes,
    }
}

/// What is remembered after some readings, and what was observed in them. A
/// reading whose key stands for no direction is passed over.
pub open spec fn disk_io_observed(
    previous: Map<u64, RawDiskIoCounters>,
    readings: Seq<DiskIoReading>,
) -> (Map<u64, RawDiskIoCounters>, Seq<DiskIoSample>)
    decreases readings.len(),
{
    if readings.len() == 0 {
        (previous, Seq::empty())
    } else {
        let (known, samples) = disk_io_observed(previous, readings.drop_last());
        let reading = readings.last();
        match reading.key.means() {
            Some(direction) => {
                let key = reading.key.number();
                let current = summed_disk_io(reading.counters@);
                (
                    known.insert(key, current),
                    samples.push(
                        disk_io_activity(direction, current, previous_disk_io(known, key)),
                    ),
                )
            },
            None => (known, samples),
        }
    }
}

/// Turns running disk I/O counters into what happened in between.
#[derive(Debug)]
pub struct DiskIoCollector {
    previous_disk_io_counters: BTreeMap<u64, RawDiskIoCounters>,
}

impl DiskIoCollector {
    /// What was last read, by key.
    pub closed spec fn previous(&self) -> Map<u64, RawDiskIoCounters> {
        self.previous_disk_io_counters@
    }

    /// A collector that has read nothing yet.
    pub fn new() -> (r: Self)
        ensures
            r.previous() == Map::<u64, RawDiskIoCounters>::empty(),
    {
        DiskIoCollector { previous_disk_io_counters: BTreeMap::new() }
    }

    /// Takes readings in, and gives the host-wide disk I/O since the last.
    pub fn collect(&mut self, readings: &Vec<DiskIoReading>, window_duration: Duration) -> (r:
        DiskIoSnapshot)
        ensures
            r.window_duration == window_duration,
            (final(self).previous(), r.samples@) == disk_io_observed(
                old(self).previous(),
                readings@,
            ),
    {
        let n: usize = readings.len();
        let mut samples: Vec<DiskIoSample> = Vec::new();
        let ghost before = self.previous();
        assert(samples@ =~= Seq::<DiskIoSample>::empty());
        for i in 0..n
            invariant
                n == readings@.len(),
                before == old(self).previous(),
                (self.previous(), samples@) == disk_io_observed(before, readings@.take(i as int)),
        {
            let reading = &readings[i];
            assert(readings@.take(i + 1).drop_last() =~= readings@.take(i as int));
            assert(readings@.take(i + 1).last() == *reading);
            if let Some(direction) = reading.key.direction() {
                let key: u64 = number_of_key(reading.key.direction, reading.key._pad);
                let current = sum_counters(&reading.counters);
                let previous = match remember(&mut self.previous_disk_io_counters, key, current) {
                    Some(counters) => counters,
                    None => RawDiskIoCounters {
                        bytes: 0,
                        operations: 0,
                        latency_ns: 0,
                        errors: 0,
                        in_flight_bytes: 0,
                        in_flight_operations: 0,
                    },
                };
                let operations: u64 = current.operations.saturating_sub(previous.operations);
                let latency_ns: u64 = current.latency_ns.saturating_sub(previous.latency_ns);
                samples.push(
                    DiskIoSample {
                        direction,
                        bytes: current.bytes.saturating_sub(previous.bytes),
                        operations,
                        errors: current.errors.saturating_sub(previous.errors),
                        average_latency: average_latency(latency_ns, operations),
                        in_flight_operations: current.in_flight_operations,
                        in_flight_bytes: current.in_flight_bytes,
                    },
                );
            }
        }
        assert(readings@.take(n as int) =~= readings@);
        DiskIoSnapshot { window_duration, samples }
    }
}

/// A pipeline sample in one I/O direction.
pub open spec fn directed_sample(
    name: Seq<char>,
    value: SampleValue,
    direction: DiskIoDirection,
    timestamp: Timestamp,
) -> SampleView {
    SampleView {
        name,
        value,
        attributes: Map::<Seq<char>, Seq<char>>::empty().insert(
            DISK_DIRECTION_ATTRIBUTE@,
            direction.text(),
        ),
        timestamp,
    }
}

/// The pipeline samples of one disk I/O sample. That of the latency is left out
/// where no operation was completed.
pub open spec fn disk_io_sample_views(sample: DiskIoSample, timestamp: Timestamp) -> Seq<
    SampleView,
> {
    let d = sample.direction;
    let latency = match sample.average_latency {
        Some(latency) => seq![
            directed_sample(
                DISK_LATENCY_SAMPLE@,
                SampleValue::GaugeF64(Measure::Milliseconds(latency)),
                d,
                timestamp,
            ),
        ],
        None => Seq::empty(),
    };
    seq![
        directed_sample(DISK_IO_SAMPLE@, SampleValue::Counter(sample.bytes), d, timestamp),
        directed_sample(
            DISK_OPERATIONS_SAMPLE@,
            SampleValue::Counter(sample.operations),
            d,
            timestamp,
        ),
        directed_sample(DISK_ERRORS_SAMPLE@, SampleValue::Counter(sample.errors), d, timestamp),
    ] + latency + seq![
        directed_sample(
            DISK_QUEUE_DEPTH_SAMPLE@,
            SampleValue::GaugeI64(sample.in_flight_operations),
            d,
            timestamp,
        ),
        directed_sample(
            DISK_IN_FLIGHT_BYTES_SAMPLE@,
            SampleValue::GaugeI64(sample.in_flight_bytes),
            d,
            timestamp,
        ),
    ]
}

fn push_directed(
    samples: &mut Vec<Sample>,
    name: &str,
    value: SampleValue,
    direction: DiskIoDirection,
    timestamp: Timestamp,
)
    ensures
        samples_of(final(samples)@) == samples_of(old(samples)@).push(
            directed_sample(name@, value, direction, timestamp),
        ),
{
    let ghost before = samples@;
    let sample = Sample {
        name: name.to_string(),
        value,
        attributes: one_attribute(DISK_DIRECTION_ATTRIBUTE, direction.as_str()),
        timestamp,
    };
    samples.push(sample);
    assert(samples_of(before.push(sample)) =~= samples_of(before).push(sample@));
}

/// Converts one [`DiskIoSample`] into neutral pipeline samples.
pub fn disk_io_samples(sample: &DiskIoSample, timestamp: Timestamp) -> (r: Vec<Sample>)
    ensures
        samples_of(r@) == disk_io_sample_views(*sample, timestamp),
{
    let direction = sample.direction;
    let mut samples: Vec<Sample> = Vec::new();
    assert(samples_of(samples@) =~= Seq::<SampleView>::empty());
    push_directed(
        &mut samples,
        DISK_IO_SAMPLE,
        SampleValue::Counter(sample.bytes),
        direction,
        timestamp,
    );
    push_directed(
        &mut samples,
        DISK_OPERATIONS_SAMPLE,
        SampleValue::Counter(sample.operations),
        direction,
        timestamp,
    );
    push_directed(
        &mut samples,
        DISK_ERRORS_SAMPLE,
        SampleValue::Counter(sample.errors),
        direction,
        timestamp,
    );
    if let Some(latency) = sample.average_latency {
        push_directed(
            &mut samples,
            DISK_LATENCY_SAMPLE,
            SampleValue::GaugeF64(Measure::Milliseconds(latency)),
            direction,
            timestamp,
        );
    }
    push_directed(
        &mut samples,
        DISK_QUEUE_DEPTH_SAMPLE,
        SampleValue::GaugeI64(sample.in_flight_operations),
        direction,
        timestamp,
    );
    push_directed(
        &mut samples,
        DISK_IN_FLIGHT_BYTES_SAMPLE,
        SampleValue::GaugeI64(sample.in_flight_bytes),
        direction,
        timestamp,
    );
    assert(samples_of(samples@) =~= disk_io_sample_views(*sample, timestamp));
    samples
}

/// The pipeline samples of several disk I/O samples, one after the other.
pub open spec fn all_disk_io_sample_views(samples: Seq<DiskIoSample>, timestamp: Timestamp) -> Seq<
    SampleView,
> {
    samples.map_values(|s: DiskIoSample| disk_io_sample_views(s, timestamp)).flatten()
}

/// Disk I/O accounting data provider.
///
/// The sampling window tracks the agent's configured disk I/O interval, and is
/// refreshed before every collection.
#[derive(Debug)]
pub struct DiskIoProvider {
    collector: DiskIoCollector,
    window: Duration,
}

impl DiskIoProvider {
    /// What was last read, by key.
    pub closed spec fn previous(&self) -> Map<u64, RawDiskIoCounters> {
        self.collector.previous()
    }

    /// The sampling window.
    pub closed spec fn window(&self) -> Duration {
        self.window
    }

    /// Creates a provider for the given window.
    pub fn new(window: Duration) -> (r: Self)
        ensures
            r.window() == window,
            r.previous() == Map::<u64, RawDiskIoCounters>::empty(),
    {
        DiskIoProvider { collector: DiskIoCollector::new(), window }
    }

    /// Stable provider name.
    pub fn name(&self) -> (r: &'static str)
        ensures
            r@ == "disk_io"@,
    {
        "disk_io"
    }

    /// Updates the sampling window, e.g. after a config change.
    pub fn set_window(&mut self, window: Duration)
        ensures
            final(self).window() == window,
            final(self).previous() == old(self).previous(),
    {
        self.window = window;
    }

    /// Takes readings in, and gives the samples of what happened since the last.
    pub fn collect(&mut self, readings: &Vec<DiskIoReading>, timestamp: Timestamp) -> (r: Vec<
        Sample,
    >)
        ensures
            final(self).window() == old(self).window(),
            final(self).previous() == disk_io_observed(old(self).previous(), readings@).0,
            samples_of(r@) == all_disk_io_sample_views(
                disk_io_observed(old(self).previous(), readings@).1,
                timestamp,
            ),
    {
        let snapshot = self.collector.collect(readings, self.window);
        let n: usize = snapshot.samples.len();
        let mut samples: Vec<Sample> = Vec::new();
        let ghost views = snapshot.samples@.map_values(
            |s: DiskIoSample| disk_io_sample_views(s, timestamp),
        );
        assert(samples_of(samples@) =~= views.take(0).flatten());
        for i in 0..n
            invariant
                n == snapshot.samples@.len(),
                views == snapshot.samples@.map_values(
                    |s: DiskIoSample| disk_io_sample_views(s, timestamp),
                ),
                samples_of(samples@) == views.take(i as int).flatten(),
        {
            let more = disk_io_samples(&snapshot.samples[i], timestamp);
            append_samples(&mut samples, more);
            proof {
                views.take(i as int).lemma_flatten_push(views[i as int]);
                assert(views.take(i as int).push(views[i as int]) =~= views.take(i + 1));
            }
        }
        assert(views.take(n as int) =~= views);
        samples
    }
}

/// A latency is reported just where an operation was completed, and then the
/// mean is at most the total.
pub proof fn law_latency_only_with_operations(latency_ns: u64, operations: u64)
    ensures
        mean_latency(latency_ns, operations) is Some <==> operations > 0,
        operations > 0 ==> mean_latency(latency_ns, operations)->0.nanos <= latency_ns,
{
    if operations > 0 {
        assert(latency_ns / operations <= latency_ns) by (nonlinear_arith)
            requires
                operations > 0,
        ;
    }
}

/// The first reading of a key counts from nothing.
pub proof fn law_first_reading_counts_from_zero(reading: DiskIoReading, direction: DiskIoDirection)
    requires
        reading.key.means() == Some(direction),
    ensures
        disk_io_observed(Map::<u64, RawDiskIoCounters>::empty(), seq![reading]).1 == seq![
            disk_io_activity(
                direction,
                summed_disk_io(reading.counters@),
                zero_disk_io_counters(),
            ),
        ],
{
    let readings = seq![reading];
    assert(readings.drop_last() =~= Seq::<DiskIoReading>::empty());
    assert(disk_io_observed(Map::<u64, RawDiskIoCounters>::empty(), readings.drop_last()) == (
        Map::<u64, RawDiskIoCounters>::empty(),
        Seq::<DiskIoSample>::empty(),
    ));
}

/// Reading after reading, the state goes from one to the next: to take some
/// readings in and then others is to take them in together.
pub proof fn law_readings_compose(
    previous: Map<u64, RawDiskIoCounters>,
    first: Seq<DiskIoReading>,
    second: Seq<DiskIoReading>,
)
    ensures
        ({
            let (known, samples) = disk_io_observed(previous, first);
            let (last, more) = disk_io_observed(known, second);
            disk_io_observed(previous, first + second) == (last, samples + more)
        }),
    decreases second.len(),
{
    let (known, samples) = disk_io_observed(previous, first);
    if second.len() == 0 {
        assert(first + second =~= first);
        assert(samples + Seq::<DiskIoSample>::empty() =~= samples);
    } else {
        law_readings_compose(previous, first, second.drop_last());
        assert((first + second).drop_last() =~= first + second.drop_last());
        let (mid, more) = disk_io_observed(known, second.drop_last());
        let reading = second.last();
        if reading.key.means() is Some {
            let all = disk_io_observed(known, second).1;
            assert(samples + all =~= (samples + more).push(all.last()));
        }
    }
}

/// Each metric of a disk I/O sample carries the figure that its name stands for,
/// in the direction and at the moment of the sample; a latency is given just
/// where there is one.
pub proof fn law_each_disk_metric_carries_its_figure(sample: DiskIoSample, t: Timestamp)
    ensures
        ({
            let list = disk_io_sample_views(sample, t);
            &&& gives(list, "system.disk.io"@, SampleValue::Counter(sample.bytes))
            &&& gives(list, "system.disk.operations"@, SampleValue::Counter(sample.operations))
            &&& gives(list, "system.disk.errors"@, SampleValue::Counter(sample.errors))
            &&& gives(
                list,
                "system.disk.io.queue_depth"@,
                SampleValue::GaugeI64(sample.in_flight_operations),
            )
            &&& gives(
                list,
                "system.disk.io.in_flight"@,
                SampleValue::GaugeI64(sample.in_flight_bytes),
            )
            &&& sample.average_latency matches Some(latency) ==> list.len() == 6 && gives(
                list,
                "system.disk.io.latency"@,
                SampleValue::GaugeF64(Measure::Milliseconds(latency)),
            )
            &&& sample.average_latency is None ==> list.len() == 5
            &&& forall|i: int|
                0 <= i < list.len() ==> {
                    &&& (#[trigger] list[i]).timestamp == t
                    &&& list[i].attributes.dom() == set!["disk.io.direction"@]
                    &&& sample.direction is Read ==> list[i].attributes["disk.io.direction"@]
                        == "read"@
                    &&& sample.direction is Write ==> list[i].attributes["disk.io.direction"@]
                        == "write"@
                }
        }),
{
    reveal_strlit("system.disk.io");
    reveal_strlit("system.disk.operations");
    reveal_strlit("system.disk.errors");
    reveal_strlit("system.disk.io.latency");
    reveal_strlit("system.disk.io.queue_depth");
    reveal_strlit("system.disk.io.in_flight");
    assert("system.disk.io"@.len() == 14);
    assert("system.disk.operations"@.len() == 22);
    assert("system.disk.errors"@.len() == 18);
    assert("system.disk.io.latency"@.len() == 22);
    assert("system.disk.io.queue_depth"@.len() == 26);
    assert("system.disk.io.in_flight"@.len() == 24);
    assert("system.disk.operations"@[12] == 'o');
    assert("system.disk.io.latency"@[12] == 'i');
    let list = disk_io_sample_views(sample, t);
    let n = list.len();
    assert(list[0].name == "system.disk.io"@);
    assert(list[1].name == "system.disk.operations"@);
    assert(list[2].name == "system.disk.errors"@);
    assert(n == 6 ==> list[3].name == "system.disk.io.latency"@);
    assert(list[n - 2].name == "system.disk.io.queue_depth"@);
    assert(list[n - 1].name == "system.disk.io.in_flight"@);
    assert forall|i: int| 0 <= i < list.len() implies (#[trigger] list[i]).attributes.dom() == set![
        "disk.io.direction"@,
    ] by {
        assert(list[i].attributes.dom() =~= set!["disk.io.direction"@]);
    }
}

/// A key stands for reading, for writing, or for nothing, by its first byte.
pub proof fn law_disk_keys_stand_for_directions(key: RawDiskIoKey)
    ensures
        key.means() == Some(DiskIoDirection::Read) <==> key.direction == 1,
        key.means() == Some(DiskIoDirection::Write) <==> key.direction == 2,
{
}

/// The mean latency times the number of operations is the whole latency, up to
/// what is lost in rounding down.
pub proof fn law_mean_latency_is_the_quotient(latency_ns: u64, operations: u64)
    requires
        operations > 0,
    ensures
        ({
            let mean = mean_latency(latency_ns, operations)->0.nanos;
            mean * operations <= latency_ns < (mean + 1) * operations
        }),
{
    let mean = (latency_ns / operations) as int;
    let n = operations as int;
    vstd::arithmetic::div_mod::lemma_fundamental_div_mod(latency_ns as int, n);
    assert(mean * n + latency_ns % operations == latency_ns) by (nonlinear_arith)
        requires
            latency_ns as int == n * mean + (latency_ns as int) % n,
            n == operations,
            n > 0,
    ;
    assert((mean + 1) * n == mean * n + n) by (nonlinear_arith);
}

/// The counters of some CPUs and of one more are, figure by figure, their sums
/// with the figures of that one, held at the bounds of what can be counted.
pub proof fn law_cpus_are_summed(counters: Seq<RawDiskIoCounters>, more: RawDiskIoCounters)
    ensures
        summed_disk_io(Seq::empty()) == (RawDiskIoCounters {
            bytes: 0,
            operations: 0,
            latency_ns: 0,
            errors: 0,
            in_flight_bytes: 0,
            in_flight_operations: 0,
        }),
        ({
            let sum = summed_disk_io(counters);
            let all = summed_disk_io(counters.push(more));
            &&& sum.bytes + more.bytes <= u64::MAX ==> all.bytes == sum.bytes + more.bytes
            &&& sum.operations + more.operations <= u64::MAX ==> all.operations == sum.operations
                + more.operations
            &&& sum.latency_ns + more.latency_ns <= u64::MAX ==> all.latency_ns == sum.latency_ns
                + more.latency_ns
            &&& sum.errors + more.errors <= u64::MAX ==> all.errors == sum.errors + more.errors
            &&& i64::MIN <= sum.in_flight_bytes + more.in_flight_bytes <= i64::MAX
                ==> all.in_flight_bytes == sum.in_flight_bytes + more.in_flight_bytes
            &&& i64::MIN <= sum.in_flight_operations + more.in_flight_operations <= i64::MAX
                ==> all.in_flight_operations == sum.in_flight_operations
                + more.in_flight_operations
            &&& sum.bytes + more.bytes > u64::MAX ==> all.bytes == u64::MAX
            &&& sum.operations + more.operations > u64::MAX ==> all.operations == u64::MAX
            &&& sum.latency_ns + more.latency_ns > u64::MAX ==> all.latency_ns == u64::MAX
            &&& sum.errors + more.errors > u64::MAX ==> all.errors == u64::MAX
            &&& sum.in_flight_bytes + more.in_flight_bytes > i64::MAX ==> all.in_flight_bytes
                == i64::MAX
            &&& sum.in_flight_bytes + more.in_flight_bytes < i64::MIN ==> all.in_flight_bytes
                == i64::MIN
            &&& sum.in_flight_operations + more.in_flight_operations > i64::MAX
                ==> all.in_flight_operations == i64::MAX
            &&& sum.in_flight_operations + more.in_flight_operations < i64::MIN
                ==> all.in_flight_operations == i64::MIN
        }),
{
    assert(counters.push(more).drop_last() =~= counters);
    assert(counters.push(more).last() == more);
}

/// A reading is remembered in place of the one before it under its key, and what
/// is remembered under other keys stays; one whose key stands for no direction
/// changes nothing.
pub proof fn law_disk_reading_is_remembered(
    previous: Map<u64, RawDiskIoCounters>,
    readings: Seq<DiskIoReading>,
    reading: DiskIoReading,
)
    ensures
        ({
            let (known, samples) = disk_io_observed(previous, readings);
            let (after, more) = disk_io_observed(previous, readings.push(reading));
            let key = reading.key.number();
            &&& reading.key.means() is None ==> after == known && more == samples
            &&& reading.key.means() is Some ==> {
                &&& after.contains_key(key)
                &&& after[key] == summed_disk_io(reading.counters@)
                &&& forall|other: u64|
                    other != key ==> #[trigger] after.contains_key(other) == known.contains_key(
                        other,
                    )
                &&& forall|other: u64|
                    other != key && known.contains_key(other) ==> #[trigger] after[other]
                        == known[other]
                &&& more.len() == samples.len() + 1
                &&& more.drop_last() == samples
            }
        }),
{
    assert(readings.push(reading).drop_last() =~= readings);
    assert(readings.push(reading).last() == reading);
    let (known, samples) = disk_io_observed(previous, readings);
    let (after, more) = disk_io_observed(previous, readings.push(reading));
    assert(reading.key.means() is Some ==> more.drop_last() =~= samples);
}

/// Between two readings of one key, each count is what its counter grew by; the
/// latency is the mean of the operations in between; and what is in flight is what
/// the later reading shows.
pub proof fn law_disk_activity_is_since_the_last_reading(
    previous: Map<u64, RawDiskIoCounters>,
    first: DiskIoReading,
    second: DiskIoReading,
)
    requires
        first.key.direction == 1 || first.key.direction == 2,
        first.key == second.key,
    ensures
        ({
            let a = summed_disk_io(first.counters@);
            let b = summed_disk_io(second.counters@);
            let samples = disk_io_observed(previous, seq![first, second]).1;
            let seen = samples[1];
            &&& samples.len() == 2
            &&& first.key.direction == 1 ==> seen.direction is Read
            &&& first.key.direction == 2 ==> seen.direction is Write
            &&& a.bytes <= b.bytes ==> a.bytes + seen.bytes == b.bytes
            &&& a.operations <= b.operations ==> a.operations + seen.operations == b.operations
            &&& a.errors <= b.errors ==> a.errors + seen.errors == b.errors
            &&& seen.average_latency is Some <==> a.operations < b.operations
            &&& a.operations < b.operations && a.latency_ns <= b.latency_ns ==> {
                let mean = seen.average_latency->0.nanos;
                let done = b.operations - a.operations;
                mean * done <= b.latency_ns - a.latency_ns < (mean + 1) * done
            }
            &&& a.operations < b.operations && a.latency_ns > b.latency_ns
                ==> seen.average_latency->0.nanos == 0
            &&& seen.in_flight_operations == b.in_flight_operations
            &&& seen.in_flight_bytes == b.in_flight_bytes
        }),
{
    let none = Seq::<DiskIoReading>::empty();
    assert(seq![first, second] =~= none.push(first).push(second));
    law_disk_reading_is_remembered(previous, none, first);
    law_disk_reading_is_remembered(previous, none.push(first), second);
    assert(none.push(first).push(second).drop_last() =~= none.push(first));
    assert(none.push(first).drop_last() =~= none);
    let a = summed_disk_io(first.counters@);
    let b = summed_disk_io(second.counters@);
    if a.operations < b.operations && a.latency_ns <= b.latency_ns {
        law_mean_latency_is_the_quotient(
            (b.latency_ns - a.latency_ns) as u64,
            (b.operations - a.operations) as u64,
        );
    }
    if a.operations < b.operations {
        law_latency_only_with_operations(0, (b.operations - a.operations) as u64);
    }
}

/// No disk I/O sample is left out of the pipeline samples, and each comes after
/// those before it.
pub proof fn law_pipeline_covers_every_disk_sample(
    samples: Seq<DiskIoSample>,
    last: DiskIoSample,
    t: Timestamp,
)
    ensures
        all_disk_io_sample_views(Seq::empty(), t) == Seq::<SampleView>::empty(),
        all_disk_io_sample_views(samples.push(last), t) == all_disk_io_sample_views(samples, t)
            + disk_io_sample_views(last, t),
{
    let view = |s: DiskIoSample| disk_io_sample_views(s, t);
    let none = Seq::<DiskIoSample>::empty();
    assert(none.map_values(view) =~= Seq::<Seq<SampleView>>::empty());
    assert(samples.push(last).map_values(view) =~= samples.map_values(view).push(view(last)));
    samples.map_values(view).lemma_flatten_push(view(last));
}

/// A counter that started anew counts nothing, and one that is read for the first
/// time counts from nothing.
pub proof fn law_disk_counters_start_from_nothing(
    previous: Map<u64, RawDiskIoCounters>,
    reading: DiskIoReading,
)
    requires
        reading.key.direction == 1 || reading.key.direction == 2,
    ensures
        ({
            let b = summed_disk_io(reading.counters@);
            let key = reading.key.number();
            let samples = disk_io_observed(previous, seq![reading]).1;
            let seen = samples[0];
            &&& samples.len() == 1
            &&& !previous.contains_key(key) ==> {
                &&& seen.bytes == b.bytes
                &&& seen.operations == b.operations
                &&& seen.errors == b.errors
            }
            &&& previous.contains_key(key) ==> {
                &&& b.bytes < previous[key].bytes ==> seen.bytes == 0
                &&& b.operations < previous[key].operations ==> seen.operations == 0
                    && seen.average_latency is None
                &&& b.errors < previous[key].errors ==> seen.errors == 0
            }
            &&& seen.in_flight_operations == b.in_flight_operations
            &&& seen.in_flight_bytes == b.in_flight_bytes
        }),
{
    let none = Seq::<DiskIoReading>::empty();
    assert(seq![reading] =~= none.push(reading));
    assert(none.push(reading).drop_last() =~= none);
    assert(disk_io_observed(previous, none) == (previous, Seq::<DiskIoSample>::empty()));
}

} // verus!
