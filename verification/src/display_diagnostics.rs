//! Read-only diagnostics over display output snapshots.
//!
//! Outputs are never configured here and no capability or writability is
//! inferred from a successful observation; the check time belongs to the
//! caller.
use vstd::prelude::*;

use crate::diagnostics::{failure_observation, observation_from_result, DiagnosticObservation};
use crate::error::ProviderError;
use crate::wayland_output::DisplayOutputSnapshot;

verus! {

/// Display diagnostics.
#[derive(Debug)]
pub struct DisplayDiagnostics {
    /// Observation of the output snapshot.
    pub outputs: DiagnosticObservation<DisplayOutputSnapshot>,
    /// When the caller checked.
    pub checked_at: Option<std::time::SystemTime>,
}

/// Classify one bounded `display.output_snapshot` read.
pub fn display_diagnostics_snapshot(
    result: Result<DisplayOutputSnapshot, ProviderError>,
    checked_at: Option<std::time::SystemTime>,
) -> (d: DisplayDiagnostics)
    ensures
        match result {
            Ok(s) => d.outputs == DiagnosticObservation::Value(s),
            Err(e) => d.outputs == failure_observation::<DisplayOutputSnapshot>(e@),
        },
        d.checked_at == checked_at,
{
    DisplayDiagnostics { outputs: observation_from_result(result), checked_at }
}

} // verus!
