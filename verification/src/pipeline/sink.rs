//! Destinations for collected samples.

use vstd::prelude::*;

use crate::pipeline::sample::Sample;

verus! {

/// A destination that exports collected [`Sample`]s.
///
/// Sinks own every decision about the transport: instrument names, labels,
/// formats, and endpoints. Providers only produce neutral samples.
pub trait Sink: Send + Sync {
    /// Stable sink name, e.g. `"otlp"`.
    fn name(&self) -> &'static str;

    /// Emits one neutral sample to the destination.
    ///
    /// `config_version` is the runtime config version; sinks may attach it as
    /// metadata or ignore it.
    fn emit(&self, sample: &Sample, config_version: &str);
}

} // verus!
