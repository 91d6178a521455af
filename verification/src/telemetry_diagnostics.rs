//! Pure diagnostics over completed telemetry collection attempts.
//!
//! No hardware I/O and no provider call happen here. A successful typed
//! sample replaces the previous one. A failed attempt keeps the last
//! successful sample, updates only the collection status and attempt time,
//! and marks retained data stale, so a failed refresh never presents old
//! values as fresh. The freshness threshold belongs to the caller.
use vstd::prelude::*;

use crate::error::{ProviderError, ProviderErrorView};
use crate::telemetry::{clone_telemetry, duration_nanos, duration_since, Telemetry, TelemetryView};

verus! {

/// Outcome of the last collection attempt.
#[derive(Debug, Clone, Copy, PartialEq, Eq, Structural)]
pub enum TelemetryCollectionStatus {
    /// The provider returned a sample.
    Available,
    /// The backend is absent, unsupported or timed out.
    Unavailable,
    /// Reading was refused.
    PermissionDenied,
    /// The failure cannot be classified.
    Unknown,
}

/// Freshness of the retained sample.
#[derive(Debug, Clone, Copy, PartialEq, Eq, Structural)]
pub enum TelemetryFreshness {
    /// Within the caller's threshold.
    Fresh,
    /// Older than the threshold, or kept after a failed refresh.
    Stale,
    /// Not known (no sample, an empty sample, or the clock went back).
    Unknown,
}

/// Quality of what diagnostics can show.
#[derive(Debug, Clone, Copy, PartialEq, Eq, Structural)]
pub enum TelemetryQuality {
    /// No sample at all.
    Failed,
    /// A sample that is no longer fresh.
    Stale,
    /// A sample with no reading.
    Empty,
    /// A sample with some readings.
    Partial,
    /// A sample with every reading.
    Complete,
}

/// Telemetry diagnostics after a sequence of attempts.
#[derive(Debug)]
pub struct TelemetryDiagnostics {
    /// Last successful sample.
    pub latest: Option<Telemetry>,
    /// Status of the last attempt.
    pub status: TelemetryCollectionStatus,
    /// When the last attempt was made.
    pub last_attempt_at: Option<std::time::SystemTime>,
    /// When the last successful sample was taken.
    pub last_success_at: Option<std::time::SystemTime>,
    /// Freshness of `latest`.
    pub freshness: TelemetryFreshness,
}

/// Whether a sample holds no reading at all.
pub open spec fn sample_empty(t: TelemetryView) -> bool {
    &&& t.cpu_temp is None
    &&& t.gpu_temp is None
    &&& t.fans.len() == 0
    &&& t.power.ac is None && t.power.battery is None && t.power.total is None && t.power.gpu is None
    &&& t.ac_online is None
    &&& t.battery is None
    &&& t.gpus.len() == 0
}

/// Whether a sample holds every reading.
pub open spec fn sample_complete(t: TelemetryView) -> bool {
    &&& t.cpu_temp is Some
    &&& t.gpu_temp is Some
    &&& t.fans.len() > 0
    &&& t.power.ac is Some && t.power.battery is Some && t.power.total is Some && t.power.gpu is Some
    &&& t.ac_online is Some
    &&& t.battery is Some
}

/// Quality of one sample.
pub open spec fn sample_quality(t: TelemetryView) -> TelemetryQuality {
    if sample_empty(t) {
        TelemetryQuality::Empty
    } else if sample_complete(t) {
        TelemetryQuality::Complete
    } else {
        TelemetryQuality::Partial
    }
}

/// Quality of one sample.
pub fn quality_of(t: &Telemetry) -> (q: TelemetryQuality)
    ensures
        q == sample_quality(t@),
{
    let empty = t.cpu_temp.is_none() && t.gpu_temp.is_none() && t.fans.len() == 0 && t.power.ac.is_none()
        && t.power.battery.is_none() && t.power.total.is_none() && t.power.gpu.is_none()
        && t.ac_online.is_none() && t.battery.is_none() && t.gpus.len() == 0;
    if empty {
        return TelemetryQuality::Empty;
    }
    let complete = t.cpu_temp.is_some() && t.gpu_temp.is_some() && t.fans.len() > 0 && t.power.ac.is_some()
        && t.power.battery.is_some() && t.power.total.is_some() && t.power.gpu.is_some()
        && t.ac_online.is_some() && t.battery.is_some();
    if complete {
        TelemetryQuality::Complete
    } else {
        TelemetryQuality::Partial
    }
}

impl TelemetryDiagnostics {
    /// Quality: no sample is a failure, a stale sample is stale, otherwise
    /// the sample's own quality.
    pub fn quality(&self) -> (q: TelemetryQuality)
        ensures
            q == match self.latest {
                None => TelemetryQuality::Failed,
                Some(t) => if self.freshness == TelemetryFreshness::Stale {
                    TelemetryQuality::Stale
                } else {
                    sample_quality(t@)
                },
            },
    {
        match &self.latest {
            None => TelemetryQuality::Failed,
            Some(t) => if self.freshness == TelemetryFreshness::Stale {
                TelemetryQuality::Stale
            } else {
                quality_of(t)
            },
        }
    }
}

/// Collection status of a failed attempt: refused reads are permission
/// failures; absent, unsupported or timed-out backends are unavailable;
/// every other failure stays unknown.
pub open spec fn status_of(e: ProviderErrorView) -> TelemetryCollectionStatus {
    match e {
        ProviderErrorView::PermissionDenied(_) => TelemetryCollectionStatus::PermissionDenied,
        ProviderErrorView::BackendUnavailable(_) | ProviderErrorView::Unsupported(_)
        | ProviderErrorView::Timeout(_) => TelemetryCollectionStatus::Unavailable,
        _ => TelemetryCollectionStatus::Unknown,
    }
}

/// Collection status of a failed attempt.
pub fn status_from_error(error: &ProviderError) -> (s: TelemetryCollectionStatus)
    ensures
        s == status_of(error@),
{
    match error {
        ProviderError::PermissionDenied(_) => TelemetryCollectionStatus::PermissionDenied,
        ProviderError::BackendUnavailable(_) | ProviderError::Unsupported(_) | ProviderError::Timeout(_) => {
            TelemetryCollectionStatus::Unavailable
        },
        _ => TelemetryCollectionStatus::Unknown,
    }
}

/// Freshness of a sample of the given age (in nanoseconds; `None` when the
/// observation time precedes the sample): fresh up to the threshold, stale
/// beyond it, unknown under clock regression.
pub open spec fn freshness_of(age: Option<u128>, threshold: u128) -> TelemetryFreshness {
    match age {
        None => TelemetryFreshness::Unknown,
        Some(a) => if a <= threshold {
            TelemetryFreshness::Fresh
        } else {
            TelemetryFreshness::Stale
        },
    }
}

/// Freshness of a sample of the given age.
pub fn freshness_at(age_nanos: Option<u128>, threshold_nanos: u128) -> (f: TelemetryFreshness)
    ensures
        f == freshness_of(age_nanos, threshold_nanos),
{
    match age_nanos {
        None => TelemetryFreshness::Unknown,
        Some(a) => if a <= threshold_nanos {
            TelemetryFreshness::Fresh
        } else {
            TelemetryFreshness::Stale
        },
    }
}

/// How long `earlier` precedes `later`, in nanoseconds, or `None` when it
/// does not. Both times are opaque `SystemTime` values, so no clause states
/// the result: std describes it only by the order of the two times.
fn age_nanos(later: std::time::SystemTime, earlier: std::time::SystemTime) -> Option<u128> {
    match duration_since(later, earlier) {
        Some(d) => Some(duration_nanos(d)),
        None => None,
    }
}

/// What folding one completed attempt gives, for a sample that is `age`
/// nanoseconds old at the attempt (`None` when the attempt precedes the
/// sample) and a threshold of `threshold` nanoseconds: a sample becomes the
/// latest one with status available and its own time as the last success; it
/// is fresh up to the threshold, stale beyond it, and of unknown freshness
/// when it is empty or the clock went back. A failure keeps the previous
/// sample and success time, classifies the failure and marks a kept sample
/// stale.
pub open spec fn attempt_outcome(
    previous: Option<&TelemetryDiagnostics>,
    result: Result<Telemetry, ProviderError>,
    attempted_at: std::time::SystemTime,
    age: Option<u128>,
    threshold: u128,
    d: TelemetryDiagnostics,
) -> bool {
    &&& d.last_attempt_at == Some(attempted_at)
    &&& match result {
        Ok(sample) => {
            &&& d.latest matches Some(t) && t@ == sample@
            &&& d.status == TelemetryCollectionStatus::Available
            &&& d.last_success_at == Some(sample.ts)
            &&& d.freshness == if sample_empty(sample@) {
                TelemetryFreshness::Unknown
            } else {
                freshness_of(age, threshold)
            }
        },
        Err(e) => {
            &&& match previous {
                Some(p) => match p.latest {
                    Some(t) => d.latest matches Some(x) && x@ == t@,
                    None => d.latest is None,
                },
                None => d.latest is None,
            }
            &&& d.status == status_of(e@)
            &&& d.last_success_at == match previous {
                Some(p) => p.last_success_at,
                None => None,
            }
            &&& d.freshness == if d.latest is Some {
                TelemetryFreshness::Stale
            } else {
                TelemetryFreshness::Unknown
            }
        },
    }
}

/// Fold one completed attempt into diagnostics, given how many nanoseconds
/// the sample precedes the attempt (`None` when the attempt precedes the
/// sample) and the freshness threshold in nanoseconds: see
/// [`attempt_outcome`].
pub fn telemetry_diagnostics_at_age(
    previous: Option<&TelemetryDiagnostics>,
    result: Result<Telemetry, ProviderError>,
    attempted_at: std::time::SystemTime,
    sample_age_nanos: Option<u128>,
    threshold_nanos: u128,
) -> (d: TelemetryDiagnostics)
    ensures
        attempt_outcome(previous, result, attempted_at, sample_age_nanos, threshold_nanos, d),
{
    match result {
        Ok(sample) => {
            let last_success_at = sample.ts.clone();
            let freshness = match quality_of(&sample) {
                TelemetryQuality::Empty => TelemetryFreshness::Unknown,
                _ => freshness_at(sample_age_nanos, threshold_nanos),
            };
            TelemetryDiagnostics {
                latest: Some(sample),
                status: TelemetryCollectionStatus::Available,
                last_attempt_at: Some(attempted_at),
                last_success_at: Some(last_success_at),
                freshness,
            }
        },
        Err(error) => {
            let latest = match previous {
                Some(state) => match &state.latest {
                    Some(t) => Some(clone_telemetry(t)),
                    None => None,
                },
                None => None,
            };
            let last_success_at = match previous {
                Some(state) => match &state.last_success_at {
                    Some(t) => Some(t.clone()),
                    None => None,
                },
                None => None,
            };
            let freshness = if latest.is_some() {
                TelemetryFreshness::Stale
            } else {
                TelemetryFreshness::Unknown
            };
            TelemetryDiagnostics {
                latest,
                status: status_from_error(&error),
                last_attempt_at: Some(attempted_at),
                last_success_at,
                freshness,
            }
        },
    }
}

/// Fold one completed attempt into diagnostics, measuring the sample's age at
/// the attempt with `SystemTime::duration_since` and the threshold with
/// `Duration::as_nanos`: the result is [`attempt_outcome`] for the age and
/// threshold those calls give. Both times and the threshold are opaque std
/// values here, so which age and threshold that is stays unstated; every
/// other part of the result is fixed.
pub fn telemetry_diagnostics_after_attempt(
    previous: Option<&TelemetryDiagnostics>,
    result: Result<Telemetry, ProviderError>,
    attempted_at: std::time::SystemTime,
    freshness_threshold: std::time::Duration,
) -> (d: TelemetryDiagnostics)
    ensures
        exists|age: Option<u128>, threshold: u128|
            attempt_outcome(previous, result, attempted_at, age, threshold, d),
{
    let age = match &result {
        Ok(sample) => age_nanos(attempted_at.clone(), sample.ts.clone()),
        Err(_) => None,
    };
    let threshold = duration_nanos(freshness_threshold);
    telemetry_diagnostics_at_age(previous, result, attempted_at, age, threshold)
}

} // verus!
