//! Network traffic by packet accounting.

use std::collections::BTreeMap;

use vstd::prelude::*;

use crate::modules::counter::{capped_sum, growth, remember};
use crate::modules::key::{key_number, number_of_key};
use crate::pipeline::sample::{one_attribute, samples_of, Sample, SampleValue, SampleView};
use crate::time::{Duration, Timestamp};

verus! {

/// Sample name for host-wide network bytes, split by the
/// `network.io.direction` attribute (`receive`, `transmit`).
pub const NETWORK_IO_SAMPLE: &'static str = "system.network.io";

/// Attribute carrying the traffic direction.
pub const NETWORK_DIRECTION_ATTRIBUTE: &'static str = "network.io.direction";

/// Traffic direction.
#[derive(Clone, Copy, Debug, PartialEq, Eq, Structural)]
pub enum NetworkDirection {
    /// Bytes received by an interface.
    Ingress,
    /// Bytes transmitted by an interface.
    Egress,
}

impl NetworkDirection {
    /// The OpenTelemetry direction attribute value.
    pub open spec fn text(self) -> Seq<char> {
        match self {
            NetworkDirection::Ingress => "receive"@,
            NetworkDirection::Egress => "transmit"@,
        }
    }

    /// Returns the OpenTelemetry direction attribute value.
    pub fn as_str(self) -> (r: &'static str)
        ensures
            r@ == self.text(),
    {
        match self {
            NetworkDirection::Ingress => "receive",
            NetworkDirection::Egress => "transmit",
        }
    }
}

/// One host-wide network traffic sample.
#[derive(Clone, Copy, Debug, PartialEq, Eq, Structural)]
pub struct NetworkSample {
    /// Traffic direction.
    pub direction: NetworkDirection,
    /// Bytes observed during the sampling window.
    pub bytes: u64,
    /// Packets observed during the sampling window.
    pub packets: u64,
}

/// Network samples for one collection window.
#[derive(Debug, PartialEq)]
pub struct NetworkSnapshot {
    /// Sampling window represented by these samples.
    pub window_duration: Duration,
    /// Host-wide traffic samples.
    pub samples: Vec<NetworkSample>,
}

/// What the kernel side keeps counters by.
#[derive(Clone, Copy, Debug)]
pub struct RawNetworkKey {
    /// 1 for bytes received, 2 for bytes transmitted.
    pub direction: u8,
    /// Filler.
    pub _pad: [u8; 7],
}

impl RawNetworkKey {
    /// The direction that the key stands for, where it stands for one.
    pub open spec fn means(self) -> Option<NetworkDirection> {
        if self.direction == 1 {
            Some(NetworkDirection::Ingress)
        } else if self.direction == 2 {
            Some(NetworkDirection::Egress)
        } else {
            None
        }
    }

    /// The number that stands for the key.
    pub open spec fn number(self) -> u64 {
        key_number(self.direction, self._pad) as u64
    }

    /// Decodes the direction, where the key stands for one.
    pub fn direction(self) -> (r: Option<NetworkDirection>)
        ensures
            r == self.means(),
    {
        match self.direction {
            1 => Some(NetworkDirection::Ingress),
            2 => Some(NetworkDirection::Egress),
            _ => None,
        }
    }
}

/// What the kernel side counts for one key on one CPU.
#[derive(Clone, Copy, Debug, Default, PartialEq, Eq, Structural)]
pub struct RawNetworkCounters {
    /// Bytes seen.
    pub bytes: u64,
    /// Packets seen.
    pub packets: u64,
}

/// Counters that have counted nothing.
pub open spec fn zero_network_counters() -> RawNetworkCounters {
    RawNetworkCounters { bytes: 0, packets: 0 }
}

/// The counters of all CPUs together.
pub open spec fn summed_network(counters: Seq<RawNetworkCounters>) -> RawNetworkCounters
    decreases counters.len(),
{
    if counters.len() == 0 {
        zero_network_counters()
    } else {
        let total = summed_network(counters.drop_last());
        RawNetworkCounters {
            bytes: capped_sum(total.bytes, counters.last().bytes),
            packets: capped_sum(total.packets, counters.last().packets),
        }
    }
}

/// Adds the counters of all CPUs up.
pub fn sum_counters(counters: &Vec<RawNetworkCounters>) -> (r: RawNetworkCounters)
    ensures
        r == summed_network(counters@),
{
    let n: usize = counters.len();
    let mut total = RawNetworkCounters { bytes: 0, packets: 0 };
    for i in 0..n
        invariant
            n == counters@.len(),
            total == summed_network(counters@.take(i as int)),
    {
        let value: RawNetworkCounters = counters[i];
        assert(counters@.take(i + 1).drop_last() =~= counters@.take(i as int));
        total =
        RawNetworkCounters {
            bytes: total.bytes.saturating_add(value.bytes),
            packets: total.packets.saturating_add(value.packets),
        };
    }
    assert(counters@.take(n as int) =~= counters@);
    total
}

/// What was read for one key: its counters on each CPU.
#[derive(Debug)]
pub struct NetworkReading {
    /// The key.
    pub key: RawNetworkKey,
    /// The counters on each CPU.
    pub counters: Vec<RawNetworkCounters>,
}

/// What was last read for a key: nothing, where it has not been seen before.
pub open spec fn previous_network(
    previous: Map<u64, RawNetworkCounters>,
    key: u64,
) -> RawNetworkCounters {
    if previous.contains_key(key) {
        previous[key]
    } else {
        zero_network_counters()
    }
}

/// What is remembered after some readings, and what was observed in them. A
/// reading whose key stands for no direction is passed over.
pub open spec fn network_observed(
    previous: Map<u64, RawNetworkCounters>,
    readings: Seq<NetworkReading>,
) -> (Map<u64, RawNetworkCounters>, Seq<NetworkSample>)
    decreases readings.len(),
{
    if readings.len() == 0 {
        (previous, Seq::empty())
    } else {
        let (known, samples) = network_observed(previous, readings.drop_last());
        let reading = readings.last();
        match reading.key.means() {
            Some(direction) => {
                let key = reading.key.number();
                let current = summed_network(reading.counters@);
                let before = previous_network(known, key);
                (
                    known.insert(key, current),
                    samples.push(
                        NetworkSample {
                            direction,
                            bytes: growth(current.bytes, before.bytes),
                            packets: growth(current.packets, before.packets),
                        },
                    ),
                )
            },
            None => (known, samples),
        }
    }
}

/// Turns running network counters into what happened in between.
#[derive(Debug)]
pub struct NetworkCollector {
    previous_network_counters: BTreeMap<u64, RawNetworkCounters>,
}

impl NetworkCollector {
    /// What was last read, by key.
    pub closed spec fn previous(&self) -> Map<u64, RawNetworkCounters> {
        self.previous_network_counters@
    }

    /// A collector that has read nothing yet.
    pub fn new() -> (r: Self)
        ensures
            r.previous() == Map::<u64, RawNetworkCounters>::empty(),
    {
        NetworkCollector { previous_network_counters: BTreeMap::new() }
    }

    /// Takes readings in, and gives the host-wide traffic since the last.
    pub fn collect(&mut self, readings: &Vec<NetworkReading>, window_duration: Duration) -> (r:
        NetworkSnapshot)
        ensures
            r.window_duration == window_duration,
            (final(self).previous(), r.samples@) == network_observed(
                old(self).previous(),
                readings@,
            ),
    {
        let n: usize = readings.len();
        let mut samples: Vec<NetworkSample> = Vec::new();
        let ghost before = self.previous();
        assert(samples@ =~= Seq::<NetworkSample>::empty());
        for i in 0..n
            invariant
                n == readings@.len(),
                before == old(self).previous(),
                (self.previous(), samples@) == network_observed(before, readings@.take(i as int)),
        {
            let reading = &readings[i];
            assert(readings@.take(i + 1).drop_last() =~= readings@.take(i as int));
            assert(readings@.take(i + 1).last() == *reading);
            if let Some(direction) = reading.key.direction() {
                let key: u64 = number_of_key(reading.key.direction, reading.key._pad);
                let current = sum_counters(&reading.counters);
                let previous = match remember(&mut self.previous_network_counters, key, current) {
                    Some(counters) => counters,
                    None => RawNetworkCounters { bytes: 0, packets: 0 },
                };
                samples.push(
                    NetworkSample {
                        direction,
                        bytes: current.bytes.saturating_sub(previous.bytes),
                        packets: current.packets.saturating_sub(previous.packets),
                    },
                );
            }
        }
        assert(readings@.take(n as int) =~= readings@);
        NetworkSnapshot { window_duration, samples }
    }
}

/// The pipeline sample of one traffic sample. Packets are observed, but not
/// exported.
pub open spec fn network_sample_view(sample: NetworkSample, timestamp: Timestamp) -> SampleView {
    SampleView {
        name: NETWORK_IO_SAMPLE@,
        value: SampleValue::Counter(sample.bytes),
        attributes: Map::<Seq<char>, Seq<char>>::empty().insert(
            NETWORK_DIRECTION_ATTRIBUTE@,
            sample.direction.text(),
        ),
        timestamp,
    }
}

/// The pipeline samples of several traffic samples, one after the other.
pub open spec fn all_network_sample_views(samples: Seq<NetworkSample>, timestamp: Timestamp) -> Seq<
    SampleView,
> {
    samples.map_values(|s: NetworkSample| network_sample_view(s, timestamp))
}

/// Converts one [`NetworkSample`] into a neutral pipeline sample.
pub fn network_sample(sample: &NetworkSample, timestamp: Timestamp) -> (r: Sample)
    ensures
        r@ == network_sample_view(*sample, timestamp),
{
    Sample {
        name: NETWORK_IO_SAMPLE.to_string(),
        value: SampleValue::Counter(sample.bytes),
        attributes: one_attribute(NETWORK_DIRECTION_ATTRIBUTE, sample.direction.as_str()),
        timestamp,
    }
}

/// Network traffic accounting data provider.
///
/// The sampling window tracks the agent's configured network interval, and is
/// refreshed before every collection.
#[derive(Debug)]
pub struct NetworkProvider {
    collector: NetworkCollector,
    window: Duration,
}

impl NetworkProvider {
    /// What was last read, by key.
    pub closed spec fn previous(&self) -> Map<u64, RawNetworkCounters> {
        self.collector.previous()
    }

    /// The sampling window.
    pub closed spec fn window(&self) -> Duration {
        self.window
    }

    /// Creates a provider for the given window.
    pub fn new(window: Duration) -> (r: Self)
        ensures
            r.window() == window,
            r.previous() == Map::<u64, RawNetworkCounters>::empty(),
    {
        NetworkProvider { collector: NetworkCollector::new(), window }
    }

    /// Stable provider name.
    pub fn name(&self) -> (r: &'static str)
        ensures
            r@ == "network"@,
    {
        "network"
    }

    /// Updates the sampling window, e.g. after a config change.
    pub fn set_window(&mut self, window: Duration)
        ensures
            final(self).window() == window,
            final(self).previous() == old(self).previous(),
    {
        self.window = window;
    }

    /// Takes readings in, and gives the samples of what happened since the last.
    pub fn collect(&mut self, readings: &Vec<NetworkReading>, timestamp: Timestamp) -> (r: Vec<
        Sample,
    >)
        ensures
            final(self).window() == old(self).window(),
            final(self).previous() == network_observed(old(self).previous(), readings@).0,
            samples_of(r@) == all_network_sample_views(
                network_observed(old(self).previous(), readings@).1,
                timestamp,
            ),
    {
        let snapshot = self.collector.collect(readings, self.window);
        let n: usize = snapshot.samples.len();
        let mut samples: Vec<Sample> = Vec::new();
        for i in 0..n
            invariant
                n == snapshot.samples@.len(),
                samples@.len() == i,
                forall|k: int|
                    0 <= k < i ==> (#[trigger] samples@[k])@ == network_sample_view(
                        snapshot.samples@[k],
                        timestamp,
                    ),
        {
            samples.push(network_sample(&snapshot.samples[i], timestamp));
        }
        assert(samples_of(samples@) =~= all_network_sample_views(snapshot.samples@, timestamp));
        samples
    }
}

/// The first reading of a key counts from nothing.
pub proof fn law_first_reading_counts_from_zero(
    reading: NetworkReading,
    direction: NetworkDirection,
)
    requires
        reading.key.means() == Some(direction),
    ensures
        network_observed(Map::<u64, RawNetworkCounters>::empty(), seq![reading]).1 == seq![
            NetworkSample {
                direction,
                bytes: summed_network(reading.counters@).bytes,
                packets: summed_network(reading.counters@).packets,
            },
        ],
{
    let readings = seq![reading];
    assert(readings.drop_last() =~= Seq::<NetworkReading>::empty());
    assert(network_observed(Map::<u64, RawNetworkCounters>::empty(), readings.drop_last()) == (
        Map::<u64, RawNetworkCounters>::empty(),
        Seq::<NetworkSample>::empty(),
    ));
}

/// Reading after reading, the state goes from one to the next: to take some
/// readings in and then others is to take them in together.
pub proof fn law_readings_compose(
    previous: Map<u64, RawNetworkCounters>,
    first: Seq<NetworkReading>,
    second: Seq<NetworkReading>,
)
    ensures
        ({
            let (known, samples) = network_observed(previous, first);
            let (last, more) = network_observed(known, second);
            network_observed(previous, first + second) == (last, samples + more)
        }),
    decreases second.len(),
{
    let (known, samples) = network_observed(previous, first);
    if second.len() == 0 {
        assert(first + second =~= first);
        assert(samples + Seq::<NetworkSample>::empty() =~= samples);
    } else {
        law_readings_compose(previous, first, second.drop_last());
        assert((first + second).drop_last() =~= first + second.drop_last());
        let (mid, more) = network_observed(known, second.drop_last());
        let reading = second.last();
        if reading.key.means() is Some {
            let all = network_observed(known, second).1;
            assert(samples + all =~= (samples + more).push(all.last()));
        }
    }
}

/// The metric of a traffic sample carries its bytes, received or transmitted, at
/// the moment of the sample.
pub proof fn law_network_metric_carries_its_figure(sample: NetworkSample, t: Timestamp)
    ensures
        ({
            let view = network_sample_view(sample, t);
            &&& view.name == "system.network.io"@
            &&& view.value == SampleValue::Counter(sample.bytes)
            &&& view.timestamp == t
            &&& view.attributes.dom() == set!["network.io.direction"@]
            &&& sample.direction is Ingress ==> view.attributes["network.io.direction"@]
                == "receive"@
            &&& sample.direction is Egress ==> view.attributes["network.io.direction"@]
                == "transmit"@
        }),
{
    let view = network_sample_view(sample, t);
    assert(view.attributes.dom() =~= set!["network.io.direction"@]);
}

/// A key stands for received traffic, for transmitted traffic, or for nothing, by
/// its first byte.
pub proof fn law_network_keys_stand_for_directions(key: RawNetworkKey)
    ensures
        key.means() == Some(NetworkDirection::Ingress) <==> key.direction == 1,
        key.means() == Some(NetworkDirection::Egress) <==> key.direction == 2,
{
}

/// The counters of some CPUs and of one more are, figure by figure, their sums
/// with the figures of that one, held at the bounds of what can be counted.
pub proof fn law_cpus_are_summed(counters: Seq<RawNetworkCounters>, more: RawNetworkCounters)
    ensures
        summed_network(Seq::empty()) == (RawNetworkCounters { bytes: 0, packets: 0 }),
        ({
            let sum = summed_network(counters);
            let all = summed_network(counters.push(more));
            &&& sum.bytes + more.bytes <= u64::MAX ==> all.bytes == sum.bytes + more.bytes
            &&& sum.bytes + more.bytes > u64::MAX ==> all.bytes == u64::MAX
            &&& sum.packets + more.packets <= u64::MAX ==> all.packets == sum.packets
                + more.packets
            &&& sum.packets + more.packets > u64::MAX ==> all.packets == u64::MAX
        }),
{
    assert(counters.push(more).drop_last() =~= counters);
    assert(counters.push(more).last() == more);
}

/// A reading is remembered in place of the one before it under its key, and what
/// is remembered under other keys stays; one whose key stands for no direction
/// changes nothing.
pub proof fn law_network_reading_is_remembered(
    previous: Map<u64, RawNetworkCounters>,
    readings: Seq<NetworkReading>,
    reading: NetworkReading,
)
    ensures
        ({
            let (known, samples) = network_observed(previous, readings);
            let (after, more) = network_observed(previous, readings.push(reading));
            let key = reading.key.number();
            &&& reading.key.means() is None ==> after == known && more == samples
            &&& reading.key.means() is Some ==> {
                &&& after.contains_key(key)
                &&& after[key] == summed_network(reading.counters@)
                &&& forall|other: u64|
                    other != key ==> #[trigger] after.contains_key(other) == known.contains_key(
                        other,
                    )
                &&& forall|other: u64|
                    other != key && known.contains_key(other) ==> #[trigger] after[other]
                        == known[other]
                &&& more.len() == samples.len() + 1
                &&& more.drop_last() == samples
            }
        }),
{
    assert(readings.push(reading).drop_last() =~= readings);
    assert(readings.push(reading).last() == reading);
    let (known, samples) = network_observed(previous, readings);
    let (after, more) = network_observed(previous, readings.push(reading));
    assert(reading.key.means() is Some ==> more.drop_last() =~= samples);
}

/// What is observed of a key is what its counters grew by since they were last
/// read: all they count where they were not, and nothing where they started anew.
pub proof fn law_traffic_is_since_the_last_reading(
    previous: Map<u64, RawNetworkCounters>,
    reading: NetworkReading,
)
    requires
        reading.key.direction == 1 || reading.key.direction == 2,
    ensures
        ({
            let b = summed_network(reading.counters@);
            let key = reading.key.number();
            let samples = network_observed(previous, seq![reading]).1;
            let seen = samples[0];
            &&& samples.len() == 1
            &&& reading.key.direction == 1 ==> seen.direction is Ingress
            &&& reading.key.direction == 2 ==> seen.direction is Egress
            &&& !previous.contains_key(key) ==> seen.bytes == b.bytes && seen.packets == b.packets
            &&& previous.contains_key(key) ==> {
                &&& previous[key].bytes <= b.bytes ==> previous[key].bytes + seen.bytes == b.bytes
                &&& previous[key].bytes > b.bytes ==> seen.bytes == 0
                &&& previous[key].packets <= b.packets ==> previous[key].packets + seen.packets
                    == b.packets
                &&& previous[key].packets > b.packets ==> seen.packets == 0
            }
        }),
{
    let none = Seq::<NetworkReading>::empty();
    assert(seq![reading] =~= none.push(reading));
    assert(none.push(reading).drop_last() =~= none);
    assert(network_observed(previous, none) == (previous, Seq::<NetworkSample>::empty()));
}

/// No traffic sample is left out of the pipeline samples, and each comes after
/// those before it.
pub proof fn law_pipeline_covers_every_traffic_sample(
    samples: Seq<NetworkSample>,
    last: NetworkSample,
    t: Timestamp,
)
    ensures
        all_network_sample_views(Seq::empty(), t) == Seq::<SampleView>::empty(),
        all_network_sample_views(samples.push(last), t) == all_network_sample_views(
            samples,
            t,
        ).push(network_sample_view(last, t)),
{
    assert(all_network_sample_views(samples.push(last), t) =~= all_network_sample_views(
        samples,
        t,
    ).push(network_sample_view(last, t)));
}

} // verus!
