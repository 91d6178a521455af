//! Independent read-only GPU primitive diagnostics.
//!
//! The MUX, the access policy and the runtime power are observed separately;
//! a product GPU mode is never read or synthesised, and a failed source never
//! erases a value observed from another.
use vstd::prelude::*;

use crate::diagnostics::{failure_observation, observation_from_result, DiagnosticObservation};
use crate::error::ProviderError;
use crate::gpu::{GpuAccessPolicy, GpuMuxState, GpuPowerState};

verus! {

/// GPU primitive diagnostics.
#[derive(Debug, Clone, PartialEq, Eq)]
pub struct GpuDiagnostics {
    /// MUX observation.
    pub mux: DiagnosticObservation<GpuMuxState>,
    /// Access-policy observation.
    pub access_policy: DiagnosticObservation<GpuAccessPolicy>,
    /// Runtime-power observation.
    pub runtime_power: DiagnosticObservation<GpuPowerState>,
}

/// The observation of one read.
pub open spec fn observed<T>(r: Result<T, ProviderError>) -> DiagnosticObservation<T> {
    match r {
        Ok(v) => DiagnosticObservation::Value(v),
        Err(e) => failure_observation::<T>(e@),
    }
}

/// Classify the three bounded primitive reads, each on its own.
pub fn gpu_diagnostics_snapshot(
    mux: Result<GpuMuxState, ProviderError>,
    access: Result<GpuAccessPolicy, ProviderError>,
    power: Result<GpuPowerState, ProviderError>,
) -> (d: GpuDiagnostics)
    ensures
        d.mux == observed(mux),
        d.access_policy == observed(access),
        d.runtime_power == observed(power),
{
    GpuDiagnostics {
        mux: observation_from_result(mux),
        access_policy: observation_from_result(access),
        runtime_power: observation_from_result(power),
    }
}

} // verus!
