//! CPU time by scheduler accounting.

use vstd::prelude::*;

use crate::digits::{decimal, decimal_text};
use crate::modules::counter::{capped_sum, growth};
use crate::pipeline::sample::{
    append_samples, gives_for, has_attribute, one_attribute, put_attribute, ratio, samples_of,
    share, Measure, Ratio, Sample, SampleValue, SampleView,
};
use crate::time::{Duration, Timestamp};

verus! {

/// Sample name for the fraction of time a CPU spent in each state.
pub const CPU_UTILIZATION_SAMPLE: &'static str = "system.cpu.utilization";

/// Attribute carrying the logical CPU number.
pub const CPU_LOGICAL_NUMBER_ATTRIBUTE: &'static str = "system.cpu.logical_number";

/// Attribute carrying the CPU state (`idle`, `user`, `system`).
pub const CPU_STATE_ATTRIBUTE: &'static str = "system.cpu.state";

/// CPU scheduler activity observed for one logical CPU.
#[derive(Clone, Copy, Debug, PartialEq, Eq, Structural)]
pub struct CpuSnapshot {
    /// Logical CPU number.
    pub cpu: u32,
    /// Sampling window represented by this snapshot.
    pub window_duration: Duration,
    /// Nanoseconds spent with the idle task scheduled.
    pub idle_ns: u64,
    /// Nanoseconds spent running regular user tasks.
    pub user_ns: u64,
    /// Nanoseconds spent running kernel threads.
    pub system_ns: u64,
}

impl CpuSnapshot {
    /// The time accounted for.
    pub open spec fn total(self) -> u64 {
        capped_sum(capped_sum(self.idle_ns, self.user_ns), self.system_ns)
    }

    /// Returns total accounted nanoseconds accumulated during the sampling window.
    pub fn total_ns(&self) -> (r: u64)
        ensures
            r == self.total(),
    {
        self.idle_ns.saturating_add(self.user_ns).saturating_add(self.system_ns)
    }

    /// Returns the idle fraction for this CPU over the sampling window.
    pub fn idle_ratio(&self) -> (r: Ratio)
        ensures
            r == share(self.idle_ns, self.total()),
    {
        ratio(self.idle_ns, self.total_ns())
    }

    /// Returns the user-task fraction for this CPU over the sampling window.
    pub fn user_ratio(&self) -> (r: Ratio)
        ensures
            r == share(self.user_ns, self.total()),
    {
        ratio(self.user_ns, self.total_ns())
    }

    /// Returns the kernel-thread fraction for this CPU over the sampling window.
    pub fn system_ratio(&self) -> (r: Ratio)
        ensures
            r == share(self.system_ns, self.total()),
    {
        ratio(self.system_ns, self.total_ns())
    }
}

/// What the kernel side counts for one CPU.
#[derive(Clone, Copy, Debug, Default, PartialEq, Eq, Structural)]
pub struct RawCpuCounters {
    /// When the scheduler last switched tasks.
    pub last_switch_ns: u64,
    /// User time of the active task at the last switch.
    pub active_task_user_ns: u64,
    /// System time of the active task at the last switch.
    pub active_task_system_ns: u64,
    /// Nanoseconds spent with the idle task scheduled.
    pub idle_ns: u64,
    /// Nanoseconds spent running regular user tasks.
    pub user_ns: u64,
    /// Nanoseconds spent running kernel threads.
    pub system_ns: u64,
}

/// Counters that have counted nothing.
pub open spec fn zero_cpu_counters() -> RawCpuCounters {
    RawCpuCounters {
        last_switch_ns: 0,
        active_task_user_ns: 0,
        active_task_system_ns: 0,
        idle_ns: 0,
        user_ns: 0,
        system_ns: 0,
    }
}

/// What was last read of a CPU: nothing, where it has not been seen before.
pub open spec fn previous_cpu(previous: Seq<RawCpuCounters>, cpu: int) -> RawCpuCounters {
    if cpu < previous.len() {
        previous[cpu]
    } else {
        zero_cpu_counters()
    }
}

/// The activity of a CPU between two readings.
pub open spec fn cpu_activity(
    cpu: u32,
    current: RawCpuCounters,
    previous: RawCpuCounters,
    window: Duration,
) -> CpuSnapshot {
    CpuSnapshot {
        cpu,
        window_duration: window,
        idle_ns: growth(current.idle_ns, previous.idle_ns),
        user_ns: growth(current.user_ns, previous.user_ns),
        system_ns: growth(current.system_ns, previous.system_ns),
    }
}

/// The activity of each CPU since it was last read.
pub open spec fn cpu_activities(
    current: Seq<RawCpuCounters>,
    previous: Seq<RawCpuCounters>,
    window: Duration,
) -> Seq<CpuSnapshot> {
    Seq::new(
        current.len(),
        |i: int| cpu_activity(i as u32, current[i], previous_cpu(previous, i), window),
    )
}

/// What is remembered after a reading: the reading itself, and what was known of
/// CPUs beyond it.
pub open spec fn cpus_after(current: Seq<RawCpuCounters>, previous: Seq<RawCpuCounters>) -> Seq<
    RawCpuCounters,
> {
    if previous.len() > current.len() {
        current + previous.skip(current.len() as int)
    } else {
        current
    }
}

/// Turns running CPU counters into what happened in between.
#[derive(Debug)]
pub struct CpuCollector {
    previous_cpu_counters: Vec<RawCpuCounters>,
}

impl CpuCollector {
    /// What was last read, by CPU.
    pub closed spec fn previous(&self) -> Seq<RawCpuCounters> {
        self.previous_cpu_counters@
    }

    /// A collector that has read nothing yet.
    pub fn new() -> (r: Self)
        ensures
            r.previous() == Seq::<RawCpuCounters>::empty(),
    {
        CpuCollector { previous_cpu_counters: Vec::new() }
    }

    /// Takes one reading of all CPUs in, and gives the activity of each since
    /// the last.
    pub fn collect(&mut self, cpu_counters: &Vec<RawCpuCounters>, window_duration: Duration) -> (r:
        Vec<CpuSnapshot>)
        ensures
            r@ == cpu_activities(cpu_counters@, old(self).previous(), window_duration),
            final(self).previous() == cpus_after(cpu_counters@, old(self).previous()),
    {
        let n: usize = cpu_counters.len();
        let ghost before = self.previous();
        let mut snapshots: Vec<CpuSnapshot> = Vec::new();
        for i in 0..n
            invariant
                n == cpu_counters@.len(),
                snapshots@.len() == i,
                before == old(self).previous(),
                self.previous().len() == (if before.len() > i {
                    before.len() as int
                } else {
                    i as int
                }),
                forall|k: int| 0 <= k < i ==> #[trigger] self.previous()[k] == cpu_counters@[k],
                forall|k: int|
                    i <= k < before.len() ==> #[trigger] self.previous()[k] == before[k],
                forall|k: int|
                    0 <= k < i ==> #[trigger] snapshots@[k] == cpu_activity(
                        k as u32,
                        cpu_counters@[k],
                        previous_cpu(before, k),
                        window_duration,
                    ),
        {
            let current: RawCpuCounters = cpu_counters[i];
            let known: bool = i < self.previous_cpu_counters.len();
            let previous: RawCpuCounters = if known {
                self.previous_cpu_counters[i]
            } else {
                RawCpuCounters {
                    last_switch_ns: 0,
                    active_task_user_ns: 0,
                    active_task_system_ns: 0,
                    idle_ns: 0,
                    user_ns: 0,
                    system_ns: 0,
                }
            };
            assert(previous == previous_cpu(before, i as int)) by {
                if known {
                    assert(previous == self.previous()[i as int]);
                }
            }
            if known {
                self.previous_cpu_counters.set(i, current);
            } else {
                self.previous_cpu_counters.push(current);
            }
            snapshots.push(
                CpuSnapshot {
                    cpu: i as u32,
                    window_duration,
                    idle_ns: current.idle_ns.saturating_sub(previous.idle_ns),
                    user_ns: current.user_ns.saturating_sub(previous.user_ns),
                    system_ns: current.system_ns.saturating_sub(previous.system_ns),
                },
            );
        }
        assert(snapshots@ =~= cpu_activities(cpu_counters@, before, window_duration));
        assert(self.previous() =~= cpus_after(cpu_counters@, before));
        snapshots
    }
}

/// The sample of one state of a CPU.
pub open spec fn cpu_state_sample(
    snapshot: CpuSnapshot,
    state: Seq<char>,
    ns: u64,
    timestamp: Timestamp,
) -> SampleView {
    SampleView {
        name: CPU_UTILIZATION_SAMPLE@,
        value: SampleValue::GaugeF64(Measure::Ratio(share(ns, snapshot.total()))),
        attributes: Map::<Seq<char>, Seq<char>>::empty().insert(
            CPU_LOGICAL_NUMBER_ATTRIBUTE@,
            decimal(snapshot.cpu as nat),
        ).insert(CPU_STATE_ATTRIBUTE@, state),
        timestamp,
    }
}

/// The samples of one CPU: its idle, user and system share, in this order.
pub open spec fn cpu_sample_views(snapshot: CpuSnapshot, timestamp: Timestamp) -> Seq<SampleView> {
    seq![
        cpu_state_sample(snapshot, "idle"@, snapshot.idle_ns, timestamp),
        cpu_state_sample(snapshot, "user"@, snapshot.user_ns, timestamp),
        cpu_state_sample(snapshot, "system"@, snapshot.system_ns, timestamp),
    ]
}

fn cpu_sample(cpu: &str, state: &str, share: Ratio, timestamp: Timestamp) -> (r: Sample)
    ensures
        r@ == (SampleView {
            name: CPU_UTILIZATION_SAMPLE@,
            value: SampleValue::GaugeF64(Measure::Ratio(share)),
            attributes: Map::<Seq<char>, Seq<char>>::empty().insert(
                CPU_LOGICAL_NUMBER_ATTRIBUTE@,
                cpu@,
            ).insert(CPU_STATE_ATTRIBUTE@, state@),
            timestamp,
        }),
{
    let mut attributes = one_attribute(CPU_LOGICAL_NUMBER_ATTRIBUTE, cpu);
    put_attribute(&mut attributes, CPU_STATE_ATTRIBUTE, state);
    Sample {
        name: CPU_UTILIZATION_SAMPLE.to_string(),
        value: SampleValue::GaugeF64(Measure::Ratio(share)),
        attributes,
        timestamp,
    }
}

/// Converts one [`CpuSnapshot`] into neutral pipeline samples.
pub fn cpu_samples(snapshot: &CpuSnapshot, timestamp: Timestamp) -> (r: Vec<Sample>)
    ensures
        samples_of(r@) == cpu_sample_views(*snapshot, timestamp),
{
    let cpu = decimal_text(snapshot.cpu as u64);
    let mut samples: Vec<Sample> = Vec::new();
    samples.push(cpu_sample(cpu.as_str(), "idle", snapshot.idle_ratio(), timestamp));
    samples.push(cpu_sample(cpu.as_str(), "user", snapshot.user_ratio(), timestamp));
    samples.push(cpu_sample(cpu.as_str(), "system", snapshot.system_ratio(), timestamp));
    assert(samples_of(samples@) =~= cpu_sample_views(*snapshot, timestamp));
    samples
}

/// The samples of several CPUs, one CPU after the other.
pub open spec fn all_cpu_sample_views(snapshots: Seq<CpuSnapshot>, timestamp: Timestamp) -> Seq<
    SampleView,
> {
    snapshots.map_values(|s: CpuSnapshot| cpu_sample_views(s, timestamp)).flatten()
}

/// CPU scheduler accounting data provider.
///
/// The sampling window tracks the agent's configured CPU interval, and is
/// refreshed before every collection.
#[derive(Debug)]
pub struct CpuProvider {
    collector: CpuCollector,
    window: Duration,
}

impl CpuProvider {
    /// What was last read, by CPU.
    pub closed spec fn previous(&self) -> Seq<RawCpuCounters> {
        self.collector.previous()
    }

    /// The sampling window.
    pub closed spec fn window(&self) -> Duration {
        self.window
    }

    /// Creates a provider for the given window.
    pub fn new(window: Duration) -> (r: Self)
        ensures
            r.window() == window,
            r.previous() == Seq::<RawCpuCounters>::empty(),
    {
        CpuProvider { collector: CpuCollector::new(), window }
    }

    /// Stable provider name.
    pub fn name(&self) -> (r: &'static str)
        ensures
            r@ == "cpu"@,
    {
        "cpu"
    }

    /// Updates the sampling window, e.g. after a config change.
    pub fn set_window(&mut self, window: Duration)
        ensures
            final(self).window() == window,
            final(self).previous() == old(self).previous(),
    {
        self.window = window;
    }

    /// Takes one reading of all CPUs in, and gives the samples of what happened
    /// since the last.
    pub fn collect(&mut self, cpu_counters: &Vec<RawCpuCounters>, timestamp: Timestamp) -> (r: Vec<
        Sample,
    >)
        ensures
            samples_of(r@) == all_cpu_sample_views(
                cpu_activities(cpu_counters@, old(self).previous(), old(self).window()),
                timestamp,
            ),
            final(self).previous() == cpus_after(cpu_counters@, old(self).previous()),
            final(self).window() == old(self).window(),
    {
        let snapshots = self.collector.collect(cpu_counters, self.window);
        let n: usize = snapshots.len();
        let mut samples: Vec<Sample> = Vec::new();
        let ghost views = snapshots@.map_values(|s: CpuSnapshot| cpu_sample_views(s, timestamp));
        assert(samples_of(samples@) =~= views.take(0).flatten());
        for i in 0..n
            invariant
                n == snapshots@.len(),
                views == snapshots@.map_values(
                    |s: CpuSnapshot| cpu_sample_views(s, timestamp),
                ),
                samples_of(samples@) == views.take(i as int).flatten(),
        {
            let more = cpu_samples(&snapshots[i], timestamp);
            append_samples(&mut samples, more);
            proof {
                views.take(i as int).lemma_flatten_push(views[i as int]);
                assert(views.take(i as int).push(views[i as int]) =~= views.take(i + 1));
            }
        }
        assert(views.take(n as int) =~= views);
        samples
    }
}

/// The shares of a CPU's time add up to all of it, where any time is accounted
/// for and the sum of the parts is not capped.
pub proof fn law_cpu_shares_add_up(snapshot: CpuSnapshot)
    requires
        snapshot.total() > 0,
        snapshot.idle_ns + snapshot.user_ns + snapshot.system_ns <= u64::MAX,
    ensures
        share(snapshot.idle_ns, snapshot.total()).numerator + share(
            snapshot.user_ns,
            snapshot.total(),
        ).numerator + share(snapshot.system_ns, snapshot.total()).numerator == snapshot.total(),
        share(snapshot.idle_ns, snapshot.total()).denominator == snapshot.total(),
        share(snapshot.user_ns, snapshot.total()).denominator == snapshot.total(),
        share(snapshot.system_ns, snapshot.total()).denominator == snapshot.total(),
{
}

/// No share of a CPU's time is more than all of it.
pub proof fn law_cpu_shares_are_fractions(snapshot: CpuSnapshot)
    ensures
        ({
            let total = snapshot.total();
            &&& share(snapshot.idle_ns, total).numerator <= share(
                snapshot.idle_ns,
                total,
            ).denominator
            &&& share(snapshot.user_ns, total).numerator <= share(
                snapshot.user_ns,
                total,
            ).denominator
            &&& share(snapshot.system_ns, total).numerator <= share(
                snapshot.system_ns,
                total,
            ).denominator
        }),
{
}

/// A reading equal to the last shows no activity.
pub proof fn law_unchanged_counters_show_no_activity(
    counters: Seq<RawCpuCounters>,
    window: Duration,
    cpu: int,
)
    requires
        0 <= cpu < counters.len(),
    ensures
        ({
            let snapshot = cpu_activities(counters, counters, window)[cpu];
            snapshot.idle_ns == 0 && snapshot.user_ns == 0 && snapshot.system_ns == 0
        }),
{
}

/// After a reading, what is remembered of each CPU in it is that reading, and what
/// is remembered of CPUs beyond it is what was.
pub proof fn law_reading_is_remembered(
    current: Seq<RawCpuCounters>,
    previous: Seq<RawCpuCounters>,
    cpu: int,
)
    ensures
        0 <= cpu < current.len() ==> cpu < cpus_after(current, previous).len() && cpus_after(
            current,
            previous,
        )[cpu] == current[cpu],
        current.len() <= cpu < previous.len() ==> cpu < cpus_after(current, previous).len()
            && cpus_after(current, previous)[cpu] == previous[cpu],
        current.len() <= cpu && previous.len() <= cpu ==> cpus_after(current, previous).len()
            <= cpu,
{
}

/// The activity of a CPU is, state by state, what its counter grew by since the CPU
/// was last read, and all that it counts where the CPU was not.
pub proof fn law_activity_is_since_the_last_reading(
    remembered: Seq<RawCpuCounters>,
    first: Seq<RawCpuCounters>,
    second: Seq<RawCpuCounters>,
    window: Duration,
    cpu: int,
)
    requires
        0 <= cpu < second.len() <= u32::MAX,
    ensures
        cpu_activities(second, cpus_after(first, remembered), window).len() == second.len(),
        ({
            let seen = cpu_activities(second, cpus_after(first, remembered), window)[cpu];
            &&& seen.cpu == cpu
            &&& seen.window_duration == window
            &&& cpu < first.len() || cpu < remembered.len() ==> {
                let last = if cpu < first.len() {
                    first[cpu]
                } else {
                    remembered[cpu]
                };
                &&& last.idle_ns <= second[cpu].idle_ns ==> last.idle_ns + seen.idle_ns
                    == second[cpu].idle_ns
                &&& last.user_ns <= second[cpu].user_ns ==> last.user_ns + seen.user_ns
                    == second[cpu].user_ns
                &&& last.system_ns <= second[cpu].system_ns ==> last.system_ns + seen.system_ns
                    == second[cpu].system_ns
            }
            &&& first.len() <= cpu && remembered.len() <= cpu ==> {
                &&& seen.idle_ns == second[cpu].idle_ns
                &&& seen.user_ns == second[cpu].user_ns
                &&& seen.system_ns == second[cpu].system_ns
            }
        }),
{
}

/// A counter that started anew shows no activity in its state.
pub proof fn law_restarted_counters_show_no_activity(
    current: Seq<RawCpuCounters>,
    previous: Seq<RawCpuCounters>,
    window: Duration,
    cpu: int,
)
    requires
        0 <= cpu < current.len(),
        cpu < previous.len(),
    ensures
        ({
            let seen = cpu_activities(current, previous, window)[cpu];
            &&& current[cpu].idle_ns < previous[cpu].idle_ns ==> seen.idle_ns == 0
            &&& current[cpu].user_ns < previous[cpu].user_ns ==> seen.user_ns == 0
            &&& current[cpu].system_ns < previous[cpu].system_ns ==> seen.system_ns == 0
        }),
{
}

/// While the counters of a CPU only grow, the activities of two windows add up to
/// what the counters grew by from the first reading to the last.
pub proof fn law_windows_add_up(
    remembered: Seq<RawCpuCounters>,
    first: Seq<RawCpuCounters>,
    second: Seq<RawCpuCounters>,
    third: Seq<RawCpuCounters>,
    window: Duration,
    cpu: int,
)
    requires
        0 <= cpu < first.len(),
        cpu < second.len(),
        cpu < third.len(),
        first[cpu].idle_ns <= second[cpu].idle_ns <= third[cpu].idle_ns,
        first[cpu].user_ns <= second[cpu].user_ns <= third[cpu].user_ns,
        first[cpu].system_ns <= second[cpu].system_ns <= third[cpu].system_ns,
    ensures
        ({
            let after_first = cpus_after(first, remembered);
            let after_second = cpus_after(second, after_first);
            let one = cpu_activities(second, after_first, window)[cpu];
            let two = cpu_activities(third, after_second, window)[cpu];
            &&& one.idle_ns + two.idle_ns == third[cpu].idle_ns - first[cpu].idle_ns
            &&& one.user_ns + two.user_ns == third[cpu].user_ns - first[cpu].user_ns
            &&& one.system_ns + two.system_ns == third[cpu].system_ns - first[cpu].system_ns
        }),
{
}

/// Under each state the samples of a CPU give the share of that state in the time
/// of all three, for the CPU and at the moment of the snapshot.
pub proof fn law_each_cpu_state_carries_its_share(snapshot: CpuSnapshot, t: Timestamp)
    requires
        snapshot.idle_ns + snapshot.user_ns + snapshot.system_ns <= u64::MAX,
    ensures
        ({
            let list = cpu_sample_views(snapshot, t);
            let total = (snapshot.idle_ns + snapshot.user_ns + snapshot.system_ns) as u64;
            let part = |ns: u64|
                SampleValue::GaugeF64(
                    Measure::Ratio(
                        Ratio {
                            numerator: ns,
                            denominator: if total == 0 {
                                1
                            } else {
                                total
                            },
                        },
                    ),
                );
            let name = "system.cpu.utilization"@;
            let key = "system.cpu.state"@;
            &&& list.len() == 3
            &&& gives_for(list, name, key, "idle"@, part(snapshot.idle_ns))
            &&& gives_for(list, name, key, "user"@, part(snapshot.user_ns))
            &&& gives_for(list, name, key, "system"@, part(snapshot.system_ns))
            &&& forall|i: int|
                0 <= i < 3 ==> {
                    &&& (#[trigger] list[i]).timestamp == t
                    &&& list[i].name == name
                    &&& list[i].attributes.dom() == set!["system.cpu.logical_number"@, key]
                    &&& list[i].attributes["system.cpu.logical_number"@] == decimal(
                        snapshot.cpu as nat,
                    )
                }
        }),
{
    reveal_strlit("system.cpu.logical_number");
    reveal_strlit("system.cpu.state");
    reveal_strlit("idle");
    reveal_strlit("user");
    reveal_strlit("system");
    assert("system.cpu.logical_number"@.len() == 25);
    assert("system.cpu.state"@.len() == 16);
    assert("idle"@[0] == 'i');
    assert("user"@[0] == 'u');
    assert("system"@[0] == 's');
    let list = cpu_sample_views(snapshot, t);
    let key = "system.cpu.state"@;
    assert(list[0].attributes[key] == "idle"@);
    assert(list[1].attributes[key] == "user"@);
    assert(list[2].attributes[key] == "system"@);
    let name = "system.cpu.utilization"@;
    assert(has_attribute(list[0], name, key, "idle"@));
    assert(has_attribute(list[1], name, key, "user"@));
    assert(has_attribute(list[2], name, key, "system"@));
    assert forall|i: int| 0 <= i < 3 implies (#[trigger] list[i]).attributes.dom() == set![
        "system.cpu.logical_number"@,
        key,
    ] by {
        assert(list[i].attributes.dom() =~= set!["system.cpu.logical_number"@, key]);
    }
}

/// No CPU is left out of the samples, and each comes after those before it.
pub proof fn law_samples_cover_every_cpu(
    snapshots: Seq<CpuSnapshot>,
    last: CpuSnapshot,
    t: Timestamp,
)
    ensures
        all_cpu_sample_views(Seq::empty(), t) == Seq::<SampleView>::empty(),
        all_cpu_sample_views(snapshots.push(last), t) == all_cpu_sample_views(snapshots, t)
            + cpu_sample_views(last, t),
{
    let view = |s: CpuSnapshot| cpu_sample_views(s, t);
    let none = Seq::<CpuSnapshot>::empty();
    assert(none.map_values(view) =~= Seq::<Seq<SampleView>>::empty());
    assert(snapshots.push(last).map_values(view) =~= snapshots.map_values(view).push(view(last)));
    snapshots.map_values(view).lemma_flatten_push(view(last));
}

/// The time accounted for is the sum of the three states, held at the greatest
/// count there is.
pub proof fn law_total_is_the_sum_of_the_states(snapshot: CpuSnapshot)
    ensures
        ({
            let sum = snapshot.idle_ns + snapshot.user_ns + snapshot.system_ns;
            &&& sum <= u64::MAX ==> snapshot.total() == sum
            &&& sum > u64::MAX ==> snapshot.total() == u64::MAX
        }),
{
}

} // verus!
