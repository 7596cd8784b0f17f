//! Telemetry as the control plane and the pages see it.
use vstd::prelude::*;

verus! {

/// How good a sample is.
#[derive(Clone, Copy, Debug, PartialEq, Eq, Structural)]
pub enum MetricQuality {
    Fresh,
    Estimated,
    Stale,
    Unavailable,
    Unsupported,
}

/// A metric's value; a measured quantity counts thousandths.
#[derive(Clone, Copy, Debug, PartialEq, Eq, Structural)]
pub enum MetricValue {
    Measured { thousandths: i64 },
    Count(u64),
    Flag(bool),
}

/// The state of a provider of metrics.
#[derive(Debug, PartialEq)]
pub enum ProviderStatus {
    Healthy,
    Degraded(String),
    Unavailable(String),
    Unsupported(String),
}

/// One metric as it was sampled.
#[derive(Clone, Debug, PartialEq)]
pub struct MetricSample {
    pub id: String,
    pub value: MetricValue,
    pub quality: MetricQuality,
    /// When it was sampled, in milliseconds of the program's clock.
    pub at: u64,
    pub source: String,
}

/// The metrics at one moment.
#[derive(Clone, Debug, PartialEq)]
pub struct TelemetrySnapshot {
    pub samples: Vec<MetricSample>,
}

impl Default for TelemetrySnapshot {
    fn default() -> (r: TelemetrySnapshot)
        ensures
            r.samples@.len() == 0,
    {
        TelemetrySnapshot { samples: Vec::new() }
    }
}

} // verus!
