//! Samples, processors, sinks and providers.

use std::sync::{Arc, Mutex};

use talia::identity::AgentIdentity;
use talia::modules::memory::MEMORY_USAGE_SAMPLE;
use talia::pipeline::processor::{process_sample, Processor};
use talia::pipeline::provider::{Provider, ProviderError};
use talia::pipeline::sample::{
    no_attributes, one_attribute, put_attribute, ratio, Measure, Sample, SampleValue,
};
use talia::pipeline::sink::Sink;
use talia::processors::name_filter::NameFilter;
use talia::sinks::otlp::{
    export, instrument_for, instruments, metrics_resource, sample_attributes, Instrument,
    InstrumentKind,
};
use talia::sinks::stdout::StdoutSink;
use talia::time::{Duration, Timestamp};

struct KeepAll;
struct DropAll;
struct Rename(&'static str);

impl Processor for KeepAll {
    fn name(&self) -> &'static str {
        "keep_all"
    }

    fn process(&self, sample: Sample) -> Option<Sample> {
        Some(sample)
    }
}

impl Processor for DropAll {
    fn name(&self) -> &'static str {
        "drop_all"
    }

    fn process(&self, sample: Sample) -> Option<Sample> {
        let _ = sample;
        None
    }
}

impl Processor for Rename {
    fn name(&self) -> &'static str {
        "rename"
    }

    fn process(&self, mut sample: Sample) -> Option<Sample> {
        sample.name = self.0.to_string();
        Some(sample)
    }
}

fn sample_named(name: &str) -> Sample {
    Sample {
        name: name.to_string(),
        value: SampleValue::Counter(1),
        attributes: no_attributes(),
        timestamp: Timestamp::default(),
    }
}

#[test]
fn empty_chain_keeps_sample() {
    let processors: Vec<Arc<dyn Processor>> = vec![];
    let sample = process_sample(&processors, sample_named("a")).expect("kept");
    assert_eq!(sample.name, "a");
}

#[test]
fn chain_applies_in_order() {
    let processors: Vec<Arc<dyn Processor>> =
        vec![Arc::new(KeepAll), Arc::new(Rename("b")), Arc::new(KeepAll)];
    let sample = process_sample(&processors, sample_named("a")).expect("kept");
    assert_eq!(sample.name, "b");
}

#[test]
fn chain_stops_at_first_drop() {
    let processors: Vec<Arc<dyn Processor>> =
        vec![Arc::new(KeepAll), Arc::new(DropAll), Arc::new(Rename("b"))];
    assert!(process_sample(&processors, sample_named("a")).is_none());
}

#[test]
fn filters_see_what_earlier_processors_made() {
    let filter = || Arc::new(NameFilter::new(vec!["b".to_string()])) as Arc<dyn Processor>;
    let renamed = vec![Arc::new(Rename("b")) as Arc<dyn Processor>, filter()];
    let filtered = vec![filter(), Arc::new(Rename("b")) as Arc<dyn Processor>];

    assert!(process_sample(&renamed, sample_named("a")).is_some());
    assert!(process_sample(&filtered, sample_named("a")).is_none());
    assert_eq!(renamed[1].name(), "name_filter");
}

#[test]
fn keeps_names_matching_a_prefix() {
    let filter = NameFilter::new(vec!["system.cpu.".to_string()]);
    let kept = filter.process(sample_named("system.cpu.usage"));
    assert_eq!(
        kept.map(|sample| sample.name),
        Some("system.cpu.usage".to_string())
    );
}

#[test]
fn drops_names_matching_no_prefix() {
    let filter = NameFilter::new(vec!["system.cpu.".to_string()]);
    assert!(filter.process(sample_named("system.memory.usage")).is_none());
}

#[test]
fn empty_prefix_list_keeps_everything() {
    let filter = NameFilter::new(vec![]);
    let kept = filter.process(sample_named("anything.at.all"));
    assert!(kept.is_some());
}

#[test]
fn pipeline_provider_error_reports_provider_and_source() {
    let source = std::io::Error::new(std::io::ErrorKind::NotFound, "no such mount");
    let error = ProviderError::new("storage", source.to_string());
    assert_eq!(error.provider, "storage");
    assert!(error.message().contains("storage"));
    assert!(error.message().contains("no such mount"));
}

#[test]
fn provider_provider_error_reports_provider_and_source() {
    let source = std::io::Error::new(std::io::ErrorKind::NotFound, "no such mount");
    let error = ProviderError::new("storage", source.to_string());
    assert_eq!(error.provider, "storage");
    assert!(error.message().contains("storage"));
    assert!(error.message().contains("no such mount"));
    assert_eq!(
        error.message(),
        "provider 'storage' collection failed: no such mount"
    );
}

struct Fixed;

impl Provider for Fixed {
    fn name(&self) -> &'static str {
        "fixed"
    }

    fn collect(&mut self) -> Result<Vec<Sample>, ProviderError> {
        Ok(vec![sample_named("a")])
    }
}

#[test]
fn providers_need_not_follow_window_or_config() {
    let mut provider: Box<dyn Provider> = Box::new(Fixed);
    provider.set_window(Duration::from_secs(1));
    provider.reconfigure(&talia::config::runtime::AgentRuntimeConfig::default());
    assert_eq!(provider.collect().expect("collected").len(), 1);
    assert_eq!(provider.name(), "fixed");
}

/// A sink that records what it was asked to emit.
struct RecordingSink {
    emitted: Mutex<Vec<(String, String)>>,
}

impl Sink for RecordingSink {
    fn name(&self) -> &'static str {
        "recording"
    }

    fn emit(&self, sample: &Sample, config_version: &str) {
        self.emitted
            .lock()
            .unwrap()
            .push((sample.name.clone(), config_version.to_string()));
    }
}

#[test]
fn sink_receives_samples_through_a_trait_object() {
    let recording = RecordingSink {
        emitted: Mutex::new(Vec::new()),
    };
    let sink: &dyn Sink = &recording;
    let sample = Sample {
        name: "system.cpu.utilization".to_string(),
        value: SampleValue::GaugeF64(Measure::Ratio(ratio(1, 2))),
        attributes: no_attributes(),
        timestamp: Timestamp::default(),
    };

    sink.emit(&sample, "v42");

    assert_eq!(sink.name(), "recording");
    assert_eq!(
        *recording.emitted.lock().unwrap(),
        [("system.cpu.utilization".to_string(), "v42".to_string())]
    );
}

#[test]
fn stdout_sink_has_stable_name() {
    assert_eq!(StdoutSink::new().name(), "stdout");
}

#[test]
fn metrics_resource_identifies_the_talia_service() {
    let identity = AgentIdentity {
        agent_id: "agent-1".to_string(),
        hostname: "host-1".to_string(),
        boot_id: None,
    };

    let resource = metrics_resource(&identity, "0.1.2");

    let get = |key: &str| {
        resource
            .iter()
            .find(|attribute| attribute.key == key)
            .map(|attribute| attribute.value.clone())
    };
    assert_eq!(get("service.name"), Some("talia-agent".to_string()));
    assert_eq!(get("service.namespace"), Some("talia".to_string()));
    assert_eq!(get("host.name"), Some("host-1".to_string()));
    assert_eq!(get("service.version"), Some("0.1.2".to_string()));
    assert!(resource.iter().all(|attribute| attribute.value != "agent-1"));
}

#[test]
fn metric_attributes_use_the_talia_config_version_key() {
    let config_version = "config-v1";
    let sample = Sample {
        name: MEMORY_USAGE_SAMPLE.to_string(),
        value: SampleValue::GaugeU64(42),
        attributes: one_attribute("system.memory.state", "used"),
        timestamp: Timestamp::default(),
    };

    let attributes = sample_attributes(config_version, &sample);

    assert_eq!(attributes.len(), 2);
    let version = attributes
        .iter()
        .find(|attribute| attribute.key == "talia.config.version")
        .expect("config version attribute present");
    assert_eq!(version.value, config_version);
}

#[test]
fn samples_go_to_the_instrument_of_their_name_and_kind() {
    let mut sample = sample_named("system.disk.io");
    put_attribute(&mut sample.attributes, "b", "2");
    put_attribute(&mut sample.attributes, "a", "1");

    let exported = export(&sample, "v").expect("exported");
    assert_eq!(exported.instrument, Instrument::DiskIo);
    assert_eq!(exported.value, SampleValue::Counter(1));
    let pairs: Vec<(&str, &str)> = exported
        .attributes
        .iter()
        .map(|attribute| (attribute.key.as_str(), attribute.value.as_str()))
        .collect();
    assert_eq!(pairs, [("a", "1"), ("b", "2"), ("talia.config.version", "v")]);

    sample.value = SampleValue::GaugeI64(1);
    assert!(export(&sample, "v").is_none());
    assert_eq!(instrument_for(&sample_named("unknown")), None);
}

#[test]
fn instruments_describe_themselves() {
    let all = instruments();
    assert_eq!(all.len(), 16);
    let mut names: Vec<&str> = all.iter().map(|instrument| instrument.name()).collect();
    names.sort();
    names.dedup();
    assert_eq!(names.len(), 16);
    let latency = Instrument::DiskLatency;
    assert_eq!(latency.name(), "system.disk.io.latency");
    assert_eq!(latency.unit(), "ms");
    assert_eq!(latency.kind(), InstrumentKind::GaugeF64);
    assert_eq!(
        latency.description(),
        "Average disk I/O issue-to-completion latency."
    );
}
