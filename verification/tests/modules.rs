//! The collectors.

use talia::modules::cpu::{
    cpu_samples, CpuProvider, CpuSnapshot, RawCpuCounters, CPU_LOGICAL_NUMBER_ATTRIBUTE,
    CPU_STATE_ATTRIBUTE, CPU_UTILIZATION_SAMPLE,
};
use talia::modules::disk_io::{
    average_latency, disk_io_samples, DiskIoCollector, DiskIoDirection, DiskIoProvider,
    DiskIoReading, DiskIoSample, RawDiskIoCounters, RawDiskIoKey, DISK_DIRECTION_ATTRIBUTE,
    DISK_ERRORS_SAMPLE, DISK_IN_FLIGHT_BYTES_SAMPLE, DISK_IO_SAMPLE, DISK_LATENCY_SAMPLE,
    DISK_OPERATIONS_SAMPLE, DISK_QUEUE_DEPTH_SAMPLE,
};
use talia::modules::key::number_of_key;
use talia::modules::memory::{
    memory_samples, parse_kib_fields, parse_meminfo, parse_vmstat_swap, sample_from_proc, MemInfo,
    MemoryCollector, MemoryError, MemoryProvider, MemorySample, SwapCounters,
    MEMORY_STATE_ATTRIBUTE, MEMORY_USAGE_SAMPLE, MEMORY_UTILIZATION_SAMPLE,
    SWAP_DIRECTION_ATTRIBUTE, SWAP_IO_SAMPLE, SWAP_STATE_ATTRIBUTE, SWAP_USAGE_SAMPLE,
    SWAP_UTILIZATION_SAMPLE,
};
use talia::modules::network::{
    network_sample, NetworkCollector, NetworkDirection, NetworkProvider, NetworkReading,
    NetworkSample, RawNetworkCounters, RawNetworkKey, NETWORK_DIRECTION_ATTRIBUTE,
    NETWORK_IO_SAMPLE,
};
use talia::modules::storage::{
    collect_filesystems, decode_mountinfo_path, filesystem_bytes_from_blocks, filesystem_samples,
    parse_mount_info, FilesystemBlocks, FilesystemReading, FilesystemSample, MountInfo,
    StorageError, StorageProvider, FILESYSTEM_LIMIT_SAMPLE, FILESYSTEM_STATE_ATTRIBUTE,
    FILESYSTEM_USAGE_SAMPLE, FILESYSTEM_UTILIZATION_SAMPLE, MOUNTPOINT_ATTRIBUTE,
};
use talia::pipeline::sample::{ratio, Measure, Ratio, Sample, SampleValue};
use talia::time::{Duration, Timestamp};

fn as_f64(ratio: Ratio) -> f64 {
    ratio.numerator as f64 / ratio.denominator as f64
}

fn gauge(value: SampleValue) -> f64 {
    match value {
        SampleValue::GaugeF64(Measure::Ratio(ratio)) => as_f64(ratio),
        SampleValue::GaugeF64(Measure::Milliseconds(span)) => span.nanos as f64 / 1_000_000.0,
        _ => panic!("expected gauge"),
    }
}

fn attribute<'a>(sample: &'a Sample, key: &str) -> &'a str {
    sample.attributes.get(key).expect("attribute present").as_str()
}

fn moment() -> Timestamp {
    Timestamp {
        since_epoch: Duration::from_secs(1_700_000_000),
    }
}

// CPU

#[test]
fn ratios_use_cpu_time_delta() {
    let snapshot = CpuSnapshot {
        cpu: 0,
        window_duration: Duration::from_secs(1),
        idle_ns: 250,
        user_ns: 700,
        system_ns: 50,
    };

    assert_eq!(snapshot.total_ns(), 1_000);
    assert_eq!(as_f64(snapshot.idle_ratio()), 0.25);
    assert_eq!(as_f64(snapshot.user_ratio()), 0.7);
    assert_eq!(as_f64(snapshot.system_ratio()), 0.05);
}

#[test]
fn cpu_snapshot_converts_to_three_state_samples() {
    let snapshot = CpuSnapshot {
        cpu: 2,
        window_duration: Duration::from_secs(10),
        idle_ns: 6_000_000_000,
        user_ns: 3_000_000_000,
        system_ns: 1_000_000_000,
    };

    let samples = cpu_samples(&snapshot, moment());

    assert_eq!(samples.len(), 3);
    let states: Vec<_> = samples
        .iter()
        .map(|sample| attribute(sample, CPU_STATE_ATTRIBUTE))
        .collect();
    assert_eq!(states, vec!["idle", "user", "system"]);
    for sample in &samples {
        assert_eq!(sample.name, CPU_UTILIZATION_SAMPLE);
        assert_eq!(attribute(sample, CPU_LOGICAL_NUMBER_ATTRIBUTE), "2");
        assert!(matches!(sample.value, SampleValue::GaugeF64(_)));
        assert_eq!(sample.timestamp, moment());
    }
    let ratios: Vec<f64> = samples.iter().map(|sample| gauge(sample.value)).collect();
    assert_eq!(ratios, vec![0.6, 0.3, 0.1]);
}

#[test]
fn idle_machine_without_time_has_no_share() {
    let snapshot = CpuSnapshot {
        cpu: 0,
        window_duration: Duration::from_secs(1),
        idle_ns: 0,
        user_ns: 0,
        system_ns: 0,
    };
    assert_eq!(as_f64(snapshot.idle_ratio()), 0.0);
    assert_eq!(ratio(5, 0), Ratio { numerator: 0, denominator: 1 });
    let full = CpuSnapshot {
        idle_ns: u64::MAX,
        user_ns: 1,
        ..snapshot
    };
    assert_eq!(full.total_ns(), u64::MAX);
}

fn cpu_counters(idle_ns: u64, user_ns: u64, system_ns: u64) -> RawCpuCounters {
    RawCpuCounters {
        idle_ns,
        user_ns,
        system_ns,
        ..RawCpuCounters::default()
    }
}

#[test]
fn cpu_counters_become_deltas() {
    let mut provider = CpuProvider::new(Duration::from_secs(1));
    assert_eq!(provider.name(), "cpu");

    let first = provider.collect(&vec![cpu_counters(10, 20, 30)], moment());
    assert_eq!(first.len(), 3);
    assert_eq!(gauge(first[1].value), 20.0 / 60.0);

    // A second CPU appears, and the first has started anew in one state.
    provider.set_window(Duration::from_secs(2));
    let second = provider.collect(
        &vec![cpu_counters(40, 10, 40), cpu_counters(1, 2, 1)],
        moment(),
    );
    assert_eq!(second.len(), 6);
    assert_eq!(gauge(second[0].value), 0.75);
    assert_eq!(gauge(second[1].value), 0.0);
    assert_eq!(gauge(second[2].value), 0.25);
    assert_eq!(attribute(&second[3], CPU_LOGICAL_NUMBER_ATTRIBUTE), "1");
    assert_eq!(gauge(second[4].value), 0.5);
}

// Network

#[test]
fn raw_key_decodes_direction() {
    let key = RawNetworkKey {
        direction: 1,
        _pad: [0; 7],
    };

    assert_eq!(key.direction(), Some(NetworkDirection::Ingress));
}

#[test]
fn network_sample_converts_to_one_counter_sample() {
    let sample = NetworkSample {
        direction: NetworkDirection::Ingress,
        bytes: 1_234,
        packets: 56,
    };

    let converted = network_sample(&sample, moment());

    assert_eq!(converted.name, NETWORK_IO_SAMPLE);
    assert_eq!(converted.value, SampleValue::Counter(1_234));
    assert_eq!(attribute(&converted, NETWORK_DIRECTION_ATTRIBUTE), "receive");
}

fn traffic(direction: u8, counters: &[(u64, u64)]) -> NetworkReading {
    NetworkReading {
        key: RawNetworkKey {
            direction,
            _pad: [0; 7],
        },
        counters: counters
            .iter()
            .map(|&(bytes, packets)| RawNetworkCounters { bytes, packets })
            .collect(),
    }
}

#[test]
fn network_counters_are_summed_over_cpus_and_become_deltas() {
    let mut collector = NetworkCollector::new();
    let window = Duration::from_secs(1);

    let first = collector.collect(
        &vec![
            traffic(1, &[(100, 1), (50, 2)]),
            traffic(9, &[(1, 1)]),
            traffic(2, &[(7, 1)]),
        ],
        window,
    );
    assert_eq!(
        first.samples,
        [
            NetworkSample { direction: NetworkDirection::Ingress, bytes: 150, packets: 3 },
            NetworkSample { direction: NetworkDirection::Egress, bytes: 7, packets: 1 },
        ]
    );
    assert_eq!(first.window_duration, window);

    let second = collector.collect(
        &vec![traffic(2, &[(5, 3)]), traffic(1, &[(u64::MAX, 5), (9, 0)])],
        window,
    );
    assert_eq!(
        second.samples,
        [
            NetworkSample { direction: NetworkDirection::Egress, bytes: 0, packets: 2 },
            NetworkSample {
                direction: NetworkDirection::Ingress,
                bytes: u64::MAX - 150,
                packets: 2,
            },
        ]
    );
}

#[test]
fn network_provider_makes_one_sample_per_direction() {
    let mut provider = NetworkProvider::new(Duration::from_secs(1));
    provider.set_window(Duration::from_secs(2));

    let samples = provider.collect(&vec![traffic(2, &[(8, 1)])], moment());

    assert_eq!(provider.name(), "network");
    assert_eq!(samples.len(), 1);
    assert_eq!(samples[0].value, SampleValue::Counter(8));
    assert_eq!(attribute(&samples[0], NETWORK_DIRECTION_ATTRIBUTE), "transmit");
}

// Disk I/O

#[test]
fn collector_raw_key_decodes_direction() {
    let key = RawDiskIoKey {
        direction: 2,
        _pad: [0; 7],
    };

    assert_eq!(key.direction(), Some(DiskIoDirection::Write));
}

#[test]
fn average_latency_uses_completed_operations() {
    let latency = average_latency(12_000, 3);

    assert_eq!(latency, Some(Duration::from_nanos(4_000)));
    assert_eq!(average_latency(12_000, 0), None);
}

fn disk_fixture() -> DiskIoSample {
    DiskIoSample {
        direction: DiskIoDirection::Read,
        bytes: 1_000,
        operations: 10,
        errors: 1,
        average_latency: Some(Duration::from_millis(5)),
        in_flight_operations: 3,
        in_flight_bytes: 4_096,
    }
}

#[test]
fn disk_io_sample_converts_to_six_samples() {
    let samples = disk_io_samples(&disk_fixture(), moment());

    assert_eq!(samples.len(), 6);
    let names: Vec<_> = samples.iter().map(|sample| sample.name.as_str()).collect();
    assert_eq!(
        names,
        vec![
            DISK_IO_SAMPLE,
            DISK_OPERATIONS_SAMPLE,
            DISK_ERRORS_SAMPLE,
            DISK_LATENCY_SAMPLE,
            DISK_QUEUE_DEPTH_SAMPLE,
            DISK_IN_FLIGHT_BYTES_SAMPLE,
        ]
    );
    for sample in &samples {
        assert_eq!(attribute(sample, DISK_DIRECTION_ATTRIBUTE), "read");
    }
    assert_eq!(samples[0].value, SampleValue::Counter(1_000));
    assert_eq!(gauge(samples[3].value), 5.0);
    assert_eq!(samples[4].value, SampleValue::GaugeI64(3));
    assert_eq!(samples[5].value, SampleValue::GaugeI64(4_096));
}

#[test]
fn disk_io_sample_without_latency_skips_latency_sample() {
    let mut fixture = disk_fixture();
    fixture.average_latency = None;

    let samples = disk_io_samples(&fixture, moment());

    assert_eq!(samples.len(), 5);
    assert!(samples
        .iter()
        .all(|sample| sample.name != DISK_LATENCY_SAMPLE));
}

fn disk_reading(direction: u8, counters: Vec<RawDiskIoCounters>) -> DiskIoReading {
    DiskIoReading {
        key: RawDiskIoKey {
            direction,
            _pad: [0; 7],
        },
        counters,
    }
}

#[test]
fn disk_counters_become_deltas_and_gauges() {
    let mut collector = DiskIoCollector::new();
    let window = Duration::from_secs(1);
    let counters = |n: u64, in_flight: i64| RawDiskIoCounters {
        bytes: 100 * n,
        operations: n,
        latency_ns: 1_000 * n,
        errors: n,
        in_flight_bytes: in_flight,
        in_flight_operations: -in_flight,
    };

    collector.collect(&vec![disk_reading(2, vec![counters(1, 5), counters(2, -1)])], window);
    let snapshot = collector.collect(
        &vec![disk_reading(2, vec![counters(4, i64::MAX), counters(3, 2)])],
        window,
    );

    assert_eq!(
        snapshot.samples,
        [DiskIoSample {
            direction: DiskIoDirection::Write,
            bytes: 400,
            operations: 4,
            errors: 4,
            average_latency: Some(Duration::from_nanos(1_000)),
            in_flight_operations: i64::MIN,
            in_flight_bytes: i64::MAX,
        }]
    );
}

#[test]
fn disk_provider_skips_unknown_directions() {
    let mut provider = DiskIoProvider::new(Duration::from_secs(1));
    provider.set_window(Duration::from_secs(3));

    let samples = provider.collect(
        &vec![
            disk_reading(0, vec![RawDiskIoCounters::default()]),
            disk_reading(1, vec![RawDiskIoCounters::default()]),
        ],
        moment(),
    );

    assert_eq!(provider.name(), "disk_io");
    assert_eq!(samples.len(), 5);
    assert_eq!(DiskIoDirection::Read.as_str(), "read");
    assert_eq!(DiskIoDirection::Write.as_str(), "write");
}

#[test]
fn keys_are_numbered_by_their_bytes() {
    assert_eq!(
        number_of_key(1, [2, 3, 4, 5, 6, 7, 8]),
        u64::from_le_bytes([1, 2, 3, 4, 5, 6, 7, 8])
    );
    assert_eq!(number_of_key(0xff, [0xff; 7]), u64::MAX);
}

// Memory

#[test]
fn parses_meminfo_and_vmstat_into_memory_sample() {
    let meminfo = parse_meminfo(
        "\
MemTotal:       1000 kB
MemFree:         100 kB
MemAvailable:    400 kB
Cached:          200 kB
SReclaimable:     50 kB
SwapTotal:       500 kB
SwapFree:        300 kB
",
    )
    .expect("meminfo should parse");
    let previous = SwapCounters {
        in_pages: 10,
        out_pages: 20,
    };
    let current = parse_vmstat_swap("pswpin 13\npswpout 25\n").expect("vmstat should parse");

    let sample = sample_from_proc(meminfo, current, previous, 4096);

    assert_eq!(sample.used_bytes, 600 * 1024);
    assert_eq!(sample.cached_bytes, 250 * 1024);
    assert_eq!(sample.swap_used_bytes, 200 * 1024);
    assert_eq!(sample.swap_in_bytes, 3 * 4096);
    assert_eq!(sample.swap_out_bytes, 5 * 4096);
    assert_eq!(as_f64(sample.used_ratio), 0.6);
    assert_eq!(as_f64(sample.swap_used_ratio), 0.4);
}

#[test]
fn first_collect_reports_zero_swap_delta() {
    let meminfo = MemInfo {
        total_bytes: 100,
        available_bytes: 80,
        free_bytes: 10,
        cached_bytes: 20,
        swap_total_bytes: 0,
        swap_free_bytes: 0,
    };
    let swap = SwapCounters {
        in_pages: 7,
        out_pages: 9,
    };

    let sample = sample_from_proc(meminfo, swap, swap, 4096);

    assert_eq!(sample.swap_in_bytes, 0);
    assert_eq!(sample.swap_out_bytes, 0);
}

fn memory_fixture() -> MemorySample {
    MemorySample {
        total_bytes: 100,
        available_bytes: 60,
        used_bytes: 40,
        free_bytes: 30,
        cached_bytes: 30,
        swap_total_bytes: 50,
        swap_free_bytes: 40,
        swap_used_bytes: 10,
        used_ratio: ratio(40, 100),
        swap_used_ratio: ratio(10, 50),
        swap_in_bytes: 7,
        swap_out_bytes: 8,
    }
}

#[test]
fn provider_name_is_memory() {
    assert_eq!(MemoryProvider::new().name(), "memory");
}

#[test]
fn memory_sample_converts_to_twelve_samples() {
    let samples = memory_samples(&memory_fixture(), moment());
    assert_eq!(samples.len(), 12);

    let usage: Vec<_> = samples
        .iter()
        .filter(|sample| sample.name == MEMORY_USAGE_SAMPLE)
        .collect();
    assert_eq!(usage.len(), 5);
    let states: Vec<_> = usage
        .iter()
        .map(|sample| attribute(sample, MEMORY_STATE_ATTRIBUTE))
        .collect();
    assert_eq!(states, vec!["total", "used", "available", "free", "cached"]);
    assert!(usage
        .iter()
        .all(|sample| matches!(sample.value, SampleValue::GaugeU64(_))));

    let utilization = samples
        .iter()
        .find(|sample| sample.name == MEMORY_UTILIZATION_SAMPLE)
        .expect("utilization sample present");
    assert_eq!(gauge(utilization.value), 0.4);
    assert_eq!(utilization.attributes.len(), 0);

    let swap_usage: Vec<_> = samples
        .iter()
        .filter(|sample| sample.name == SWAP_USAGE_SAMPLE)
        .collect();
    assert_eq!(swap_usage.len(), 3);
    let swap_states: Vec<_> = swap_usage
        .iter()
        .map(|sample| attribute(sample, SWAP_STATE_ATTRIBUTE))
        .collect();
    assert_eq!(swap_states, vec!["total", "used", "free"]);

    let swap_utilization = samples
        .iter()
        .find(|sample| sample.name == SWAP_UTILIZATION_SAMPLE)
        .expect("swap utilization sample present");
    assert_eq!(gauge(swap_utilization.value), 0.2);

    let swap_io: Vec<_> = samples
        .iter()
        .filter(|sample| sample.name == SWAP_IO_SAMPLE)
        .collect();
    assert_eq!(swap_io.len(), 2);
    assert!(swap_io
        .iter()
        .all(|sample| matches!(sample.value, SampleValue::Counter(_))));
    let directions: Vec<_> = swap_io
        .iter()
        .map(|sample| attribute(sample, SWAP_DIRECTION_ATTRIBUTE))
        .collect();
    assert_eq!(directions, vec!["in", "out"]);
}

const MEMINFO: &str = "MemTotal: 8 kB\r\n\nMemFree:1\nMemAvailable:\t2 kB\nCached: 3\n\
    SwapTotal: +4 kB\nSwapFree: 0\nHugePages_Total:\nno colon here\nMemTotal: 9 kB";

#[test]
fn memory_fields_are_read_leniently() {
    let fields = parse_kib_fields("/x", MEMINFO).expect("fields");

    assert_eq!(fields.get("MemTotal"), Some(&(9 * 1024)));
    assert_eq!(fields.get("MemFree"), Some(&1024));
    assert_eq!(fields.get("SwapTotal"), Some(&(4 * 1024)));
    assert_eq!(fields.get("HugePages_Total"), None);
    let huge = parse_kib_fields("/x", "A: 18446744073709551615\n").expect("capped");
    assert_eq!(huge.get("A"), Some(&u64::MAX));
}

#[test]
fn memory_faults_are_named() {
    let invalid = parse_kib_fields("/x", "A: 1\nB: 12kB\nC: -1\n").expect_err("not a number");
    assert_eq!(
        invalid,
        MemoryError::InvalidField {
            path: "/x",
            field: "B".to_string(),
            value: "12kB".to_string()
        }
    );
    assert_eq!(invalid.message(), "invalid value for field B in /x: 12kB");
    assert!(parse_kib_fields("/x", "A: 18446744073709551616\n").is_err());

    let missing = parse_meminfo("MemTotal: 1\nMemFree: 1\n").expect_err("incomplete");
    assert_eq!(
        missing.message(),
        "missing required field MemAvailable in /proc/meminfo"
    );

    assert_eq!(
        parse_vmstat_swap("pswpin 1\n").expect_err("no pswpout").message(),
        "missing required field pswpout in /proc/vmstat"
    );
    assert_eq!(
        parse_vmstat_swap("pswpout x\npswpin 1\n").expect_err("no number").message(),
        "invalid value for field pswpout in /proc/vmstat: x"
    );
    assert_eq!(
        parse_vmstat_swap("pgpgin x\npswpin 1 2\npswpout 3\npswpin 5\npswpin\n"),
        Ok(SwapCounters { in_pages: 5, out_pages: 3 })
    );
}

#[test]
fn memory_collector_keeps_its_counters_over_failures() {
    let mut collector = MemoryCollector::with_page_size(10);
    let vmstat = |n: u64| format!("pswpin {n}\npswpout {n}\n");

    let first = collector.collect(Ok(MEMINFO), Ok(&vmstat(5))).expect("first");
    assert_eq!(first.swap_in_bytes, 0);
    assert_eq!(first.used_bytes, 7 * 1024);

    let failed = collector.collect(Ok(MEMINFO), Err("gone".to_string()));
    assert_eq!(
        failed.expect_err("unreadable").message(),
        "failed to read /proc/vmstat: gone"
    );
    let unread = collector.collect(Err("gone".to_string()), Err("gone".to_string()));
    assert_eq!(
        unread.expect_err("unreadable").message(),
        "failed to read /proc/meminfo: gone"
    );
    let second = collector.collect(Ok(MEMINFO), Ok(&vmstat(8))).expect("second");
    assert_eq!(second.swap_in_bytes, 30);
    assert_eq!(second.swap_out_bytes, 30);
}

#[test]
fn memory_provider_wraps_failures() {
    let mut provider = MemoryProvider::with_collector(MemoryCollector::new());

    let samples = provider
        .collect(Ok(MEMINFO), Ok("pswpin 1\npswpout 1\n"), moment())
        .expect("collected");
    assert_eq!(samples.len(), 12);

    let error = provider
        .collect(Ok(""), Ok(""), moment())
        .expect_err("nothing there");
    assert_eq!(error.provider, "memory");
    assert_eq!(
        error.message(),
        "provider 'memory' collection failed: missing required field MemTotal in /proc/meminfo"
    );
}

// Storage

#[test]
fn provider_name_is_storage() {
    assert_eq!(StorageProvider::new(Vec::new()).name(), "storage");
}

fn filesystem_fixture() -> FilesystemSample {
    FilesystemSample {
        mountpoint: "/".to_string(),
        filesystem_type: Some("ext4".to_string()),
        mode: Some("rw".to_string()),
        limit_bytes: 100,
        used_bytes: 40,
        free_bytes: 50,
        reserved_bytes: 10,
        used_ratio: ratio(40, 100),
    }
}

#[test]
fn filesystem_sample_converts_to_five_samples() {
    let samples = filesystem_samples(&filesystem_fixture(), moment());
    assert_eq!(samples.len(), 5);

    assert_eq!(samples[0].name, FILESYSTEM_LIMIT_SAMPLE);
    assert_eq!(samples[0].value, SampleValue::GaugeU64(100));
    assert_eq!(attribute(&samples[0], MOUNTPOINT_ATTRIBUTE), "/");

    let usage: Vec<_> = samples
        .iter()
        .filter(|sample| sample.name == FILESYSTEM_USAGE_SAMPLE)
        .collect();
    assert_eq!(usage.len(), 3);
    let states: Vec<_> = usage
        .iter()
        .map(|sample| attribute(sample, FILESYSTEM_STATE_ATTRIBUTE))
        .collect();
    assert_eq!(states, vec!["used", "free", "reserved"]);

    let utilization = samples
        .iter()
        .find(|sample| sample.name == FILESYSTEM_UTILIZATION_SAMPLE)
        .expect("utilization sample present");
    assert_eq!(gauge(utilization.value), 0.4);
    assert_eq!(attribute(utilization, FILESYSTEM_STATE_ATTRIBUTE), "used");
}

const MOUNTINFO: &str = "\
29 23 0:25 / / rw,relatime - ext4 /dev/sda1 rw\n\
30 23 0:26 / /mnt/data\\040disk ro,relatime - xfs /dev/sdb1 ro\n";

#[test]
fn parses_mountinfo_filesystem_type_and_mode() {
    let contents = "\
29 23 0:25 / / rw,relatime - ext4 /dev/sda1 rw\n\
30 23 0:26 / /mnt/data\\040disk ro,relatime - xfs /dev/sdb1 ro\n";

    let mounts = parse_mount_info(contents).expect("mountinfo should parse");

    assert_eq!(
        mounts.get("/").expect("root mount"),
        &MountInfo {
            filesystem_type: "ext4".to_string(),
            mode: Some("rw".to_string())
        }
    );
    assert_eq!(
        mounts.get("/mnt/data disk").expect("escaped mount"),
        &MountInfo {
            filesystem_type: "xfs".to_string(),
            mode: Some("ro".to_string())
        }
    );
}

#[test]
fn storage_math_keeps_reserved_space_separate() {
    let fragment_size = 4096;
    let blocks = 100;
    let blocks_free = 20;
    let blocks_available = 15;

    let bytes = filesystem_bytes_from_blocks(fragment_size, blocks, blocks_free, blocks_available);

    assert_eq!(bytes.limit, 409_600);
    assert_eq!(bytes.used, 327_680);
    assert_eq!(bytes.free, 61_440);
    assert_eq!(bytes.reserved, 20_480);
    assert_eq!(as_f64(bytes.used_ratio()), 0.8);
}

#[test]
fn storage_math_is_capped() {
    let bytes = filesystem_bytes_from_blocks(u64::MAX, 2, 1, 3);
    assert_eq!(bytes.limit, u64::MAX);
    assert_eq!(bytes.used, 0);
    assert_eq!(bytes.free, u64::MAX);
    assert_eq!(bytes.reserved, 0);
    assert_eq!(as_f64(filesystem_bytes_from_blocks(4096, 0, 0, 0).used_ratio()), 0.0);
}

#[test]
fn escaped_bytes_of_paths_are_put_back() {
    for (value, path) in [
        ("/a\\040b\\011c\\012d\\134e", "/a b\tc\nd\\e"),
        ("\\377", "\u{ff}"),
        ("\\400", "\\400"),
        ("\\08", "\\08"),
        ("\\12", "\\12"),
        ("\\1234", "S4"),
        ("\\\\040", "\\ "),
        ("\\", "\\"),
        ("plain", "plain"),
        ("", ""),
    ] {
        assert_eq!(decode_mountinfo_path(value), path);
    }
}

#[test]
fn mount_lines_out_of_form_are_refused() {
    for line in ["no separator", "1 2 3 4 5 - ext4", "1 2 3 4 5 6 - "] {
        let contents = format!("{MOUNTINFO}\n{line}\n");
        match parse_mount_info(&contents) {
            Err(StorageError::InvalidMountInfo(refused)) => assert_eq!(refused, line),
            _ => panic!("line should be refused"),
        }
    }
    let odd = parse_mount_info("1 2 3 4 /x noexec,rw - tmpfs\n \n").expect("parses");
    assert_eq!(odd.get("/x").expect("mount").mode, None);
    assert_eq!(
        StorageError::InvalidMountInfo("x".to_string()).message(),
        "invalid mountinfo line: x"
    );
}

const BLOCKS: FilesystemBlocks = FilesystemBlocks {
    fragment_size: 1,
    blocks: 100,
    blocks_free: 60,
    blocks_available: 50,
};

#[test]
fn mounts_that_cannot_be_read_are_passed_over() {
    let mounts = vec!["/gone".to_string(), "/".to_string(), "/late".to_string()];

    let samples = collect_filesystems(&mounts, Ok(MOUNTINFO), &vec![None, Some(BLOCKS)])
        .expect("one mount");

    assert_eq!(samples, [filesystem_fixture()]);
}

#[test]
fn reports_error_when_all_configured_mounts_fail() {
    let mounts = vec!["/talia-missing-mount".to_string()];

    let failed = collect_filesystems(&mounts, Ok(MOUNTINFO), &vec![None]);
    assert_eq!(failed, Err(StorageError::NoFilesystemSamples));
    assert_eq!(
        collect_filesystems(&Vec::new(), Ok(MOUNTINFO), &Vec::new()),
        Ok(Vec::new())
    );
    let unread = collect_filesystems(&mounts, Err("denied".to_string()), &vec![None]);
    assert_eq!(
        unread.expect_err("unreadable").message(),
        "failed to read mount info from /proc/self/mountinfo: denied"
    );
    assert_eq!(
        StorageError::StatVfs {
            mountpoint: "/m".to_string(),
            source: "ENOENT".to_string()
        }
        .message(),
        "failed to stat filesystem /m: ENOENT"
    );
}

fn reading_at(timestamp: Timestamp) -> Option<FilesystemReading> {
    Some(FilesystemReading {
        blocks: BLOCKS,
        timestamp,
    })
}

#[test]
fn each_file_system_is_sampled_at_its_own_moment() {
    let later = Timestamp {
        since_epoch: Duration::from_secs(1_700_000_001),
    };
    let mounts = ["/", "/gone", "/mnt/data disk"].map(ToString::to_string);
    let provider = StorageProvider::new(mounts.to_vec());

    let samples = provider
        .collect(
            Ok(MOUNTINFO),
            &vec![reading_at(moment()), None, reading_at(later)],
        )
        .expect("collected");

    let seen: Vec<(&str, Timestamp)> = samples
        .iter()
        .map(|sample| (attribute(sample, MOUNTPOINT_ATTRIBUTE), sample.timestamp))
        .collect();
    let mut expected = vec![("/", moment()); 5];
    expected.extend(vec![("/mnt/data disk", later); 5]);
    assert_eq!(seen, expected);
}

#[test]
fn storage_provider_picks_up_new_mounts() {
    let mut provider = StorageProvider::new(Vec::new());
    let mut config = talia::config::runtime::AgentRuntimeConfig::default();
    config.storage.mounts = vec!["/".to_string(), "/mnt/data disk".to_string()];

    provider.reconfigure(&config);
    let samples = provider
        .collect(
            Ok(MOUNTINFO),
            &vec![reading_at(moment()), reading_at(moment())],
        )
        .expect("collected");

    assert_eq!(provider.mounts().len(), 2);
    assert_eq!(samples.len(), 10);
    assert_eq!(attribute(&samples[5], MOUNTPOINT_ATTRIBUTE), "/mnt/data disk");
    assert_eq!(attribute(&samples[5], "system.filesystem.type"), "xfs");
    let error = provider
        .collect(Ok(MOUNTINFO), &Vec::new())
        .expect_err("none readable");
    assert_eq!(
        error.message(),
        "provider 'storage' collection failed: failed to collect any configured storage mount"
    );
}
