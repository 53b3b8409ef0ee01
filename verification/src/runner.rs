//! When each collector runs.
//!
//! A [`CollectorSpec`] says how to read a collector's schedule from the runtime
//! config. To add a collector is to add an entry to [`collector_specs`].

use vstd::prelude::*;

use crate::config::runtime::{strings, AgentRuntimeConfig, AgentRuntimeConfigView};
use crate::digits::{decimal, decimal_text};
use crate::text::same_text;
use crate::time::{seconds, Duration};

verus! {

// ---------------------------------------------------------------------------
// The registry
// ---------------------------------------------------------------------------

/// Which collector a spec stands for.
#[derive(Clone, Copy, Debug, PartialEq, Eq, Structural)]
pub enum Collector {
    /// File system capacity.
    Storage,
    /// Memory and swap pressure.
    Memory,
    /// CPU time.
    Cpu,
    /// Network traffic.
    Network,
    /// Disk I/O.
    DiskIo,
}

/// How to schedule one collector.
#[derive(Clone, Copy, Debug)]
pub struct CollectorSpec {
    /// Stable collector name, used in logs.
    pub name: &'static str,
    /// Which collector it is.
    pub collector: Collector,
    /// Whether to sleep one interval before each collection. Providers that
    /// measure rates over the window need a full elapsed window; readers of
    /// what is at one moment collect immediately.
    pub sleep_before_collect: bool,
}

/// What a [`CollectorSpec`] says.
pub struct CollectorSpecView {
    pub name: Seq<char>,
    pub collector: Collector,
    pub sleep_before_collect: bool,
}

impl View for CollectorSpec {
    type V = CollectorSpecView;

    open spec fn view(&self) -> CollectorSpecView {
        CollectorSpecView {
            name: self.name@,
            collector: self.collector,
            sleep_before_collect: self.sleep_before_collect,
        }
    }
}

/// Whether a runtime config enables a collector, and how often it runs.
pub open spec fn scheduled(collector: Collector, c: AgentRuntimeConfigView) -> (bool, Duration) {
    match collector {
        Collector::Storage => (
            c.storage.enabled,
            seconds(c.storage.interval_seconds as int),
        ),
        Collector::Memory => (c.memory.enabled, seconds(c.memory.interval_seconds as int)),
        Collector::Cpu => (c.cpu.enabled, seconds(c.cpu.interval_seconds as int)),
        Collector::Network => (
            c.network.enabled,
            seconds(c.network.interval_seconds as int),
        ),
        Collector::DiskIo => (
            c.disk_io.enabled,
            seconds(c.disk_io.interval_seconds as int),
        ),
    }
}

/// The collectors, in the order in which they are listed.
pub open spec fn registry() -> Seq<CollectorSpecView> {
    seq![
        CollectorSpecView {
            name: "storage"@,
            collector: Collector::Storage,
            sleep_before_collect: false,
        },
        CollectorSpecView {
            name: "memory"@,
            collector: Collector::Memory,
            sleep_before_collect: false,
        },
        CollectorSpecView {
            name: "cpu"@,
            collector: Collector::Cpu,
            sleep_before_collect: true,
        },
        CollectorSpecView {
            name: "network"@,
            collector: Collector::Network,
            sleep_before_collect: true,
        },
        CollectorSpecView {
            name: "disk_io"@,
            collector: Collector::DiskIo,
            sleep_before_collect: true,
        },
    ]
}

/// What a list of specs says.
pub open spec fn specs_of(list: Seq<CollectorSpec>) -> Seq<CollectorSpecView> {
    list.map_values(|s: CollectorSpec| s@)
}

impl CollectorSpec {
    /// Reads `(enabled, interval)` from the runtime config.
    pub fn schedule(&self, config: &AgentRuntimeConfig) -> (r: (bool, Duration))
        ensures
            r == scheduled(self.collector, config@),
    {
        match self.collector {
            Collector::Storage => (
                config.storage.enabled,
                Duration::from_secs(config.storage.interval_seconds),
            ),
            Collector::Memory => (
                config.memory.enabled,
                Duration::from_secs(config.memory.interval_seconds),
            ),
            Collector::Cpu => (
                config.cpu.enabled,
                Duration::from_secs(config.cpu.interval_seconds),
            ),
            Collector::Network => (
                config.network.enabled,
                Duration::from_secs(config.network.interval_seconds),
            ),
            Collector::DiskIo => (
                config.disk_io.enabled,
                Duration::from_secs(config.disk_io.interval_seconds),
            ),
        }
    }
}

/// One spec per provider.
pub fn collector_specs() -> (r: Vec<CollectorSpec>)
    ensures
        specs_of(r@) == registry(),
        r@.len() == 5,
{
    let list: Vec<CollectorSpec> = vec![
        CollectorSpec {
            name: "storage",
            collector: Collector::Storage,
            sleep_before_collect: false,
        },
        CollectorSpec {
            name: "memory",
            collector: Collector::Memory,
            sleep_before_collect: false,
        },
        CollectorSpec { name: "cpu", collector: Collector::Cpu, sleep_before_collect: true },
        CollectorSpec {
            name: "network",
            collector: Collector::Network,
            sleep_before_collect: true,
        },
        CollectorSpec {
            name: "disk_io",
            collector: Collector::DiskIo,
            sleep_before_collect: true,
        },
    ];
    assert(specs_of(list@) =~= registry());
    list
}

/// The names of the first collectors of a list that a runtime config enables.
pub open spec fn enabled_names(list: Seq<CollectorSpecView>, c: AgentRuntimeConfigView, n: int)
    -> Seq<Seq<char>>
    decreases n,
{
    if n <= 0 {
        Seq::empty()
    } else if scheduled(list[n - 1].collector, c).0 {
        enabled_names(list, c, n - 1).push(list[n - 1].name)
    } else {
        enabled_names(list, c, n - 1)
    }
}

/// Lists the collectors that a runtime config enables, in the order of the
/// registry.
pub fn enabled_collectors(config: &AgentRuntimeConfig) -> (r: Vec<String>)
    ensures
        strings(r@) == enabled_names(registry(), config@, registry().len() as int),
{
    let specs = collector_specs();
    let n: usize = specs.len();
    let mut names: Vec<String> = Vec::new();
    assert(strings(names@) =~= Seq::<Seq<char>>::empty());
    for i in 0..n
        invariant
            n == specs@.len(),
            specs_of(specs@) == registry(),
            strings(names@) == enabled_names(registry(), config@, i as int),
    {
        assert(registry()[i as int] == specs@[i as int]@) by {
            assert(specs_of(specs@)[i as int] == specs@[i as int]@);
        }
        if specs[i].schedule(config).0 {
            let ghost before = names@;
            let name = specs[i].name.to_string();
            names.push(name);
            assert(strings(before.push(name)) =~= strings(before).push(name@));
        }
    }
    names
}

/// Whether the first collectors of a list have a name.
pub open spec fn named_before(list: Seq<CollectorSpecView>, name: Seq<char>, n: int) -> bool {
    exists|i: int| 0 <= i < n && (#[trigger] list[i]).name == name
}

/// The names of the first collectors of a list, with commas between them.
pub open spec fn joined_names(list: Seq<CollectorSpecView>, n: int) -> Seq<char>
    decreases n,
{
    if n <= 0 {
        Seq::empty()
    } else if n == 1 {
        list[0].name
    } else {
        joined_names(list, n - 1) + ", "@ + list[n - 1].name
    }
}

/// What is said to someone who asks for an unknown provider.
pub open spec fn unknown_provider_message(name: Seq<char>) -> Seq<char> {
    "unknown provider '"@ + name + "'; known providers: "@ + joined_names(
        registry(),
        registry().len() as int,
    )
}

/// Looks up a collector spec by provider name.
pub fn collector_spec(name: &str) -> (r: Result<CollectorSpec, String>)
    ensures
        match r {
            Ok(spec) => spec@.name == name@ && registry().contains(spec@),
            Err(message) => {
                &&& !named_before(registry(), name@, registry().len() as int)
                &&& message@ == unknown_provider_message(name@)
            },
        },
{
    let specs = collector_specs();
    let n: usize = specs.len();
    for i in 0..n
        invariant
            n == specs@.len(),
            specs_of(specs@) == registry(),
            !named_before(registry(), name@, i as int),
    {
        assert(registry()[i as int] == specs@[i as int]@) by {
            assert(specs_of(specs@)[i as int] == specs@[i as int]@);
        }
        if same_text(specs[i].name, name) {
            return Ok(specs[i]);
        }
    }
    let known = join_names(&specs);
    Err(
        "unknown provider '".to_string().concat(name).concat("'; known providers: ").concat(
            known.as_str(),
        ),
    )
}

fn join_names(specs: &Vec<CollectorSpec>) -> (r: String)
    ensures
        r@ == joined_names(specs_of(specs@), specs@.len() as int),
{
    let n: usize = specs.len();
    let ghost list = specs_of(specs@);
    let mut r = "".to_string();
    proof {
        reveal_strlit("");
        assert(r@ =~= Seq::<char>::empty());
    }
    for i in 0..n
        invariant
            n == specs@.len(),
            list == specs_of(specs@),
            r@ == joined_names(list, i as int),
    {
        assert(list[i as int] == specs@[i as int]@);
        if i == 0 {
            r = specs[i].name.to_string();
        } else {
            r = r.concat(", ").concat(specs[i].name);
        }
    }
    r
}

// ---------------------------------------------------------------------------
// The loop of a collector
// ---------------------------------------------------------------------------

/// What a collector's loop remembers from round to round.
#[derive(Clone, Copy, Debug, PartialEq, Eq, Structural)]
pub struct CollectorRun {
    /// Whether a provider is loaded.
    pub loaded: bool,
    /// Whether it has been logged that the collector is disabled.
    pub disabled_logged: bool,
}

/// What a collector's loop does next.
#[derive(Clone, Copy, Debug, PartialEq, Eq, Structural)]
pub enum CollectorStep {
    /// Drop the provider and log what is new, then sleep and start a new round.
    Idle {
        /// Whether there is a provider to drop.
        stop: bool,
        /// Whether to log that the collector is disabled.
        announce: bool,
        /// How long to sleep.
        sleep: Duration,
    },
    /// Load the provider for a window, and go on with how that went.
    Load {
        /// The collection window.
        window: Duration,
    },
    /// Sleep, then start a new round.
    Retry {
        /// How long to sleep.
        sleep: Duration,
    },
    /// Sleep where that comes first, collect over the window, sleep where that
    /// comes last, then start a new round.
    Collect {
        /// The collection window, which is also how long to sleep.
        window: Duration,
        /// Whether to sleep before the collection, and not after it.
        sleep_first: bool,
    },
}

/// What a loop does at the start of a round.
pub open spec fn round_started(
    run: CollectorRun,
    schedule: (bool, Duration),
    sleep_before_collect: bool,
) -> (CollectorRun, CollectorStep) {
    let (enabled, interval) = schedule;
    if !enabled {
        (
            CollectorRun { loaded: false, disabled_logged: true },
            CollectorStep::Idle {
                stop: run.loaded,
                announce: !run.disabled_logged,
                sleep: interval,
            },
        )
    } else if !run.loaded {
        (
            CollectorRun { disabled_logged: false, ..run },
            CollectorStep::Load { window: interval },
        )
    } else {
        (
            CollectorRun { disabled_logged: false, ..run },
            CollectorStep::Collect { window: interval, sleep_first: sleep_before_collect },
        )
    }
}

/// What a loop does once it has tried to load its provider.
pub open spec fn load_tried(
    run: CollectorRun,
    success: bool,
    interval: Duration,
    sleep_before_collect: bool,
) -> (CollectorRun, CollectorStep) {
    if success {
        (
            CollectorRun { loaded: true, ..run },
            CollectorStep::Collect { window: interval, sleep_first: sleep_before_collect },
        )
    } else {
        (run, CollectorStep::Retry { sleep: interval })
    }
}

impl CollectorRun {
    /// A loop that has not run yet.
    pub fn new() -> (r: Self)
        ensures
            !r.loaded,
            !r.disabled_logged,
    {
        CollectorRun { loaded: false, disabled_logged: false }
    }

    /// Starts a round under a runtime config.
    pub fn start_round(&mut self, spec: &CollectorSpec, config: &AgentRuntimeConfig) -> (r:
        CollectorStep)
        ensures
            (*final(self), r) == round_started(
                *old(self),
                scheduled(spec.collector, config@),
                spec.sleep_before_collect,
            ),
    {
        let (enabled, interval) = spec.schedule(config);
        if !enabled {
            let stop: bool = self.loaded;
            let announce: bool = !self.disabled_logged;
            self.loaded = false;
            self.disabled_logged = true;
            return CollectorStep::Idle { stop, announce, sleep: interval };
        }
        self.disabled_logged = false;
        if !self.loaded {
            return CollectorStep::Load { window: interval };
        }
        CollectorStep::Collect { window: interval, sleep_first: spec.sleep_before_collect }
    }

    /// Goes on once the provider was loaded, or could not be.
    pub fn load_finished(&mut self, spec: &CollectorSpec, window: Duration, success: bool) -> (r:
        CollectorStep)
        ensures
            (*final(self), r) == load_tried(
                *old(self),
                success,
                window,
                spec.sleep_before_collect,
            ),
    {
        if !success {
            return CollectorStep::Retry { sleep: window };
        }
        self.loaded = true;
        CollectorStep::Collect { window, sleep_first: spec.sleep_before_collect }
    }
}

// ---------------------------------------------------------------------------
// One-shot collection
// ---------------------------------------------------------------------------

/// What a query does after a collection.
#[derive(Clone, Copy, Debug, PartialEq, Eq, Structural)]
pub enum QueryStep {
    /// It is done.
    Finish,
    /// Sleep, then collect again.
    SleepThenCollect(Duration),
}

/// How long a query sleeps before its first collection, where it does.
pub open spec fn first_sleep(sleep_before_collect: bool, interval: Duration) -> Option<Duration> {
    if sleep_before_collect {
        Some(interval)
    } else {
        None
    }
}

/// How a query goes on after a collection.
pub open spec fn query_step(interval: Duration, elapsed: Duration, duration: Duration)
    -> QueryStep {
    if elapsed.nanos >= duration.nanos {
        QueryStep::Finish
    } else {
        QueryStep::SleepThenCollect(interval)
    }
}

/// Whether a query sleeps before its first collection.
pub fn query_start(spec: &CollectorSpec, interval: Duration) -> (r: Option<Duration>)
    ensures
        r == first_sleep(spec.sleep_before_collect, interval),
        r == if spec.sleep_before_collect {
            Some(interval)
        } else {
            None
        },
{
    if spec.sleep_before_collect {
        Some(interval)
    } else {
        None
    }
}

/// Decides how a query goes on after a collection: it is done once its duration
/// is over, and otherwise sleeps an interval until the next collection.
pub fn query_next(interval: Duration, elapsed: Duration, duration: Duration) -> (r: QueryStep)
    ensures
        r == query_step(interval, elapsed, duration),
        r == if elapsed.nanos >= duration.nanos {
            QueryStep::Finish
        } else {
            QueryStep::SleepThenCollect(interval)
        },
{
    if elapsed.nanos >= duration.nanos {
        QueryStep::Finish
    } else {
        QueryStep::SleepThenCollect(interval)
    }
}

/// What is said of a provider that was checked.
pub open spec fn check_message(name: Seq<char>, samples: nat) -> Seq<char> {
    "ok: provider '"@ + name + "' returned "@ + decimal(samples) + " samples"@
}

/// Reports on a provider that was checked, and the number of samples it gave.
pub fn check_report(name: &str, samples: u64) -> (r: String)
    ensures
        r@ == check_message(name@, samples as nat),
{
    let count = decimal_text(samples);
    "ok: provider '".to_string().concat(name).concat("' returned ").concat(count.as_str()).concat(
        " samples",
    )
}

// ---------------------------------------------------------------------------
// Laws
// ---------------------------------------------------------------------------

/// Every collector is listed once, and has a name of its own.
pub proof fn law_collector_names_are_unique()
    ensures
        registry().len() == 5,
        forall|i: int, j: int|
            0 <= i < j < registry().len() ==> {
                &&& (#[trigger] registry()[i]).name != (#[trigger] registry()[j]).name
                &&& registry()[i].collector != registry()[j].collector
            },
{
    reveal_strlit("storage");
    reveal_strlit("memory");
    reveal_strlit("cpu");
    reveal_strlit("network");
    reveal_strlit("disk_io");
    assert("storage"@[0] == 's');
    assert("memory"@[0] == 'm');
    assert("cpu"@[0] == 'c');
    assert("network"@[0] == 'n');
    assert("disk_io"@[0] == 'd');
}

/// How often, and for how long, a step has the loop sleep.
pub open spec fn sleeps(step: CollectorStep) -> Seq<Duration> {
    match step {
        CollectorStep::Idle { sleep, .. } => seq![sleep],
        CollectorStep::Load { .. } => Seq::empty(),
        CollectorStep::Retry { sleep } => seq![sleep],
        CollectorStep::Collect { window, sleep_first } => if sleep_first {
            seq![window] + Seq::<Duration>::empty()
        } else {
            Seq::<Duration>::empty() + seq![window]
        },
    }
}

/// Every round sleeps once, for the scheduled interval, whatever is enabled and
/// however the loading goes.
pub proof fn law_every_round_sleeps_once(
    run: CollectorRun,
    schedule: (bool, Duration),
    sleep_before_collect: bool,
    success: bool,
)
    ensures
        ({
            let (next, step) = round_started(run, schedule, sleep_before_collect);
            let (last, more) = load_tried(next, success, schedule.1, sleep_before_collect);
            if step is Load {
                sleeps(step) + sleeps(more) == seq![schedule.1]
            } else {
                sleeps(step) == seq![schedule.1]
            }
        }),
{
    let (next, step) = round_started(run, schedule, sleep_before_collect);
    let (last, more) = load_tried(next, success, schedule.1, sleep_before_collect);
    assert(sleeps(more) =~= seq![schedule.1]);
    assert(sleeps(step) + sleeps(more) =~= sleeps(more) || step !is Load);
    assert(step !is Load ==> sleeps(step) =~= seq![schedule.1]);
}

/// A disabled collector holds no provider, and drops the one it has; an enabled
/// one collects only with a provider loaded, and loads one only where it has
/// none.
pub proof fn law_provider_follows_the_switch(
    run: CollectorRun,
    schedule: (bool, Duration),
    sleep_before_collect: bool,
)
    ensures
        ({
            let (next, step) = round_started(run, schedule, sleep_before_collect);
            &&& !schedule.0 ==> !next.loaded && step is Idle
            &&& !schedule.0 && run.loaded ==> step->Idle_stop
            &&& step is Collect ==> schedule.0 && run.loaded && next.loaded
            &&& step is Load ==> schedule.0 && !run.loaded
        }),
        load_tried(run, true, schedule.1, sleep_before_collect).0.loaded,
{
}

/// That a collector is disabled is logged once for each time it is disabled.
pub proof fn law_disabling_is_logged_once(
    run: CollectorRun,
    first: (bool, Duration),
    second: (bool, Duration),
    sleep_before_collect: bool,
)
    requires
        !first.0,
        !second.0,
    ensures
        ({
            let (next, _) = round_started(run, first, sleep_before_collect);
            let (_, step) = round_started(next, second, sleep_before_collect);
            !step->announce
        }),
{
}

/// Each collector runs by its own switch and at its own interval.
pub proof fn law_schedule_is_the_collectors_own(c: AgentRuntimeConfigView)
    ensures
        scheduled(Collector::Storage, c).0 == c.storage.enabled,
        scheduled(Collector::Storage, c).1.nanos == c.storage.interval_seconds * 1_000_000_000,
        scheduled(Collector::Memory, c).0 == c.memory.enabled,
        scheduled(Collector::Memory, c).1.nanos == c.memory.interval_seconds * 1_000_000_000,
        scheduled(Collector::Cpu, c).0 == c.cpu.enabled,
        scheduled(Collector::Cpu, c).1.nanos == c.cpu.interval_seconds * 1_000_000_000,
        scheduled(Collector::Network, c).0 == c.network.enabled,
        scheduled(Collector::Network, c).1.nanos == c.network.interval_seconds * 1_000_000_000,
        scheduled(Collector::DiskIo, c).0 == c.disk_io.enabled,
        scheduled(Collector::DiskIo, c).1.nanos == c.disk_io.interval_seconds * 1_000_000_000,
{
}

/// Each collector is listed under its own name; those that measure rates sleep
/// before they collect, and those that read what is at one moment do not.
pub proof fn law_collectors_are_listed_under_their_names(i: int)
    requires
        0 <= i < 5,
    ensures
        registry().len() == 5,
        ({
            let spec = registry()[i];
            match spec.collector {
                Collector::Storage => spec.name == "storage"@ && !spec.sleep_before_collect,
                Collector::Memory => spec.name == "memory"@ && !spec.sleep_before_collect,
                Collector::Cpu => spec.name == "cpu"@ && spec.sleep_before_collect,
                Collector::Network => spec.name == "network"@ && spec.sleep_before_collect,
                Collector::DiskIo => spec.name == "disk_io"@ && spec.sleep_before_collect,
            }
        }),
{
}

/// The collectors that are reported as enabled are those whose switch is on, each
/// once.
pub proof fn law_enabled_collectors_are_those_switched_on(c: AgentRuntimeConfigView)
    ensures
        ({
            let names = enabled_names(registry(), c, 5);
            let on = |b: bool|
                if b {
                    1int
                } else {
                    0int
                };
            &&& names.contains("storage"@) <==> c.storage.enabled
            &&& names.contains("memory"@) <==> c.memory.enabled
            &&& names.contains("cpu"@) <==> c.cpu.enabled
            &&& names.contains("network"@) <==> c.network.enabled
            &&& names.contains("disk_io"@) <==> c.disk_io.enabled
            &&& names.len() == on(c.storage.enabled) + on(c.memory.enabled) + on(c.cpu.enabled)
                + on(c.network.enabled) + on(c.disk_io.enabled)
        }),
{
    law_collector_names_are_unique();
    let list = registry();
    assert(list[0].name == "storage"@);
    assert(list[1].name == "memory"@);
    assert(list[2].name == "cpu"@);
    assert(list[3].name == "network"@);
    assert(list[4].name == "disk_io"@);
    lemma_enabled_names(c, 0);
    lemma_enabled_names(c, 1);
    lemma_enabled_names(c, 2);
    lemma_enabled_names(c, 3);
    lemma_enabled_names(c, 4);
    assert(enabled_names(list, c, 0) =~= Seq::<Seq<char>>::empty());
}

proof fn lemma_enabled_names(c: AgentRuntimeConfigView, n: int)
    requires
        0 <= n < 5,
    ensures
        ({
            let before = enabled_names(registry(), c, n);
            let after = enabled_names(registry(), c, n + 1);
            let name = registry()[n].name;
            let enabled = scheduled(registry()[n].collector, c).0;
            &&& after.len() == if enabled {
                before.len() + 1
            } else {
                before.len()
            }
            &&& forall|other: Seq<char>| #[trigger]
                after.contains(other) <==> before.contains(other) || (enabled && other == name)
        }),
{
    let before = enabled_names(registry(), c, n);
    let after = enabled_names(registry(), c, n + 1);
    let name = registry()[n].name;
    if scheduled(registry()[n].collector, c).0 {
        assert(after == before.push(name));
        assert forall|other: Seq<char>| #[trigger] after.contains(other) <==> before.contains(other)
            || other == name by {
            if before.contains(other) {
                let i = choose|i: int| 0 <= i < before.len() && before[i] == other;
                assert(after[i] == other);
            }
            if other == name {
                assert(after[before.len() as int] == name);
            }
            if after.contains(other) {
                let i = choose|i: int| 0 <= i < after.len() && after[i] == other;
                if i < before.len() {
                    assert(before[i] == other);
                }
            }
        }
    }
}

/// An enabled collector with a provider collects over its interval, one without
/// loads it for that interval; a disabled one drops the provider it has, says so
/// where it has not, and sleeps. Being enabled again is being new to be disabled.
pub proof fn law_round_follows_the_schedule(
    run: CollectorRun,
    enabled: bool,
    interval: Duration,
    sleep_before_collect: bool,
)
    ensures
        ({
            let (next, step) = round_started(run, (enabled, interval), sleep_before_collect);
            &&& enabled && run.loaded ==> step == (CollectorStep::Collect {
                window: interval,
                sleep_first: sleep_before_collect,
            })
            &&& enabled && !run.loaded ==> step == (CollectorStep::Load { window: interval })
            &&& enabled ==> next.loaded == run.loaded && !next.disabled_logged
            &&& !enabled ==> step == (CollectorStep::Idle {
                stop: run.loaded,
                announce: !run.disabled_logged,
                sleep: interval,
            })
            &&& !enabled ==> !next.loaded && next.disabled_logged
        }),
{
}

/// A provider that was loaded collects at once, over the same interval; one that
/// could not be is tried again after that interval.
pub proof fn law_loading_leads_to_collection_or_retry(
    run: CollectorRun,
    interval: Duration,
    sleep_before_collect: bool,
)
    ensures
        load_tried(run, true, interval, sleep_before_collect).1 == (CollectorStep::Collect {
            window: interval,
            sleep_first: sleep_before_collect,
        }),
        load_tried(run, true, interval, sleep_before_collect).0.disabled_logged
            == run.disabled_logged,
        load_tried(run, false, interval, sleep_before_collect) == (
            run,
            CollectorStep::Retry { sleep: interval },
        ),
{
}

/// A query is done just once its duration is over, and until then sleeps one
/// interval after each collection; before the first it sleeps just where its
/// collector measures rates.
pub proof fn law_query_runs_for_its_duration(
    interval: Duration,
    elapsed: Duration,
    duration: Duration,
)
    ensures
        query_step(interval, elapsed, duration) is Finish <==> duration.nanos <= elapsed.nanos,
        elapsed.nanos < duration.nanos ==> query_step(interval, elapsed, duration)
            == QueryStep::SleepThenCollect(interval),
        first_sleep(true, interval) == Some(interval),
        first_sleep(false, interval) is None,
{
}

} // verus!
