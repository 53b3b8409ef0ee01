//! The sink that prints samples as JSON lines.

use vstd::prelude::*;

verus! {

/// Prints one JSON object per sample to standard output.
///
/// Used for one-shot collection from the command line.
#[derive(Clone, Copy, Debug)]
pub struct StdoutSink;

impl StdoutSink {
    /// Creates the sink.
    pub fn new() -> (r: Self) {
        StdoutSink
    }

    /// Stable sink name.
    pub fn name(&self) -> (r: &'static str)
        ensures
            r@ == "stdout"@,
    {
        "stdout"
    }
}

impl Default for StdoutSink {
    fn default() -> (r: Self) {
        StdoutSink
    }
}

} // verus!
