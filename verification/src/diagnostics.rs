//! Diagnostic entries and provider health.
use vstd::prelude::*;

use crate::error::{ProviderError, ProviderErrorView};

verus! {

/// One key/value diagnostic line.
#[derive(Debug, Clone, PartialEq, Eq)]
pub struct DiagnosticEntry {
    /// Stable key.
    pub key: String,
    /// Human-readable value.
    pub value: String,
}

impl DiagnosticEntry {
    /// An entry.
    pub fn new(key: &str, value: &str) -> (e: Self)
        ensures
            e.key@ == key@,
            e.value@ == value@,
    {
        DiagnosticEntry { key: key.to_owned(), value: value.to_owned() }
    }
}

/// Health of a backend.
#[derive(Debug, Clone, PartialEq, Eq)]
pub enum ProviderHealth {
    /// Working.
    Healthy,
    /// Working with limitations.
    Degraded(String),
    /// Unavailable.
    Unavailable(String),
}


/// What diagnostics observed of one source.
#[derive(Debug, Clone, PartialEq, Eq)]
pub enum DiagnosticObservation<T> {
    /// The source answered.
    Value(T),
    /// Reading was refused.
    PermissionDenied,
    /// The source is absent, unsupported or timed out.
    Unavailable,
    /// The failure cannot be classified.
    Unknown,
}

/// The observation class of a failed read: refused, unavailable (absent
/// backend, unsupported, timeout) or unknown (every other failure).
pub open spec fn failure_observation<T>(e: ProviderErrorView) -> DiagnosticObservation<T> {
    match e {
        ProviderErrorView::PermissionDenied(_) => DiagnosticObservation::PermissionDenied,
        ProviderErrorView::BackendUnavailable(_) | ProviderErrorView::Unsupported(_)
        | ProviderErrorView::Timeout(_) => DiagnosticObservation::Unavailable,
        _ => DiagnosticObservation::Unknown,
    }
}

/// The observation of a read: its value, or the class of its failure;
/// a failure never becomes a value.
pub fn observation_from_result<T>(result: Result<T, ProviderError>) -> (o: DiagnosticObservation<T>)
    ensures
        match result {
            Ok(v) => o == DiagnosticObservation::Value(v),
            Err(e) => o == failure_observation::<T>(e@),
        },
{
    match result {
        Ok(v) => DiagnosticObservation::Value(v),
        Err(ProviderError::PermissionDenied(_)) => DiagnosticObservation::PermissionDenied,
        Err(ProviderError::BackendUnavailable(_)) | Err(ProviderError::Unsupported(_)) | Err(
            ProviderError::Timeout(_),
        ) => DiagnosticObservation::Unavailable,
        Err(_) => DiagnosticObservation::Unknown,
    }
}

} // verus!
