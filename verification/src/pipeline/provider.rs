//! Sources of telemetry.

use vstd::prelude::*;

use crate::config::runtime::AgentRuntimeConfig;
use crate::pipeline::sample::Sample;
use crate::time::Duration;

verus! {

/// Error returned when a provider fails to collect.
#[derive(Debug, PartialEq, Eq)]
pub struct ProviderError {
    /// Stable name of the provider that failed.
    pub provider: &'static str,
    /// What the underlying failure says.
    pub source: String,
}

impl ProviderError {
    /// Wraps what a provider-specific failure says, attaching the provider name.
    pub fn new(provider: &'static str, source: String) -> (r: Self)
        ensures
            r.provider@ == provider@,
            r.source@ == source@,
    {
        ProviderError { provider, source }
    }

    /// The message of the error, for people.
    pub open spec fn text(&self) -> Seq<char> {
        "provider '"@ + self.provider@ + "' collection failed: "@ + self.source@
    }

    /// The message of the error, for people.
    pub fn message(&self) -> (r: String)
        ensures
            r@ == self.text(),
    {
        "provider '".to_string().concat(self.provider).concat("' collection failed: ").concat(
            self.source.as_str(),
        )
    }
}

/// A source of telemetry: eBPF programs, procfs readers, or anything else that
/// can produce [`Sample`]s on demand.
///
/// Providers are synchronous and pull-based: the runner decides when to collect,
/// the provider only decides how.
pub trait Provider: Send {
    /// Stable registry name, e.g. `"storage"`. Used in config and CLI output.
    fn name(&self) -> &'static str;

    /// Collects one batch of samples. Called once per collection interval.
    fn collect(&mut self) -> Result<Vec<Sample>, ProviderError>;

    /// Updates the collection window before a collection. Default is a no-op.
    fn set_window(&mut self, window: Duration) {
    }

    /// Applies runtime config changes before a collection. Default is a no-op.
    fn reconfigure(&mut self, config: &AgentRuntimeConfig) {
    }
}

} // verus!
