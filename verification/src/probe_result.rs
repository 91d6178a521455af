//! How a provider error classifies a capability probe operation.
//!
//! A probe that was answered with an error still says something about the
//! capability: the backend may be missing or only momentarily unavailable,
//! the feature unsupported, the caller not permitted. Errors that reveal a
//! broken request or a broken provider are not classifications at all and
//! come back as probe errors.
use vstd::prelude::*;

use crate::error::{ProviderError, ProviderErrorView};
use crate::text::{contains_seq, contains_str};

verus! {

/// Where in a probe the error was met.
#[derive(Debug, Clone, Copy, PartialEq, Eq, Structural)]
pub enum ProbeContext {
    /// While finding out whether the backend exists at all.
    BackendDiscovery,
    /// Against a backend already known to exist.
    EstablishedBackend,
}

/// What a probe operation showed of a capability.
#[derive(Debug, Clone, Copy, PartialEq, Eq, Structural)]
pub enum ProbeClassification {
    /// The operation is supported.
    Supported,
    /// The operation is not supported.
    Unsupported,
    /// The backend does not exist.
    BackendMissing,
    /// The backend exists but did not answer now.
    TemporarilyUnavailable,
    /// The caller is not permitted.
    PermissionDenied,
    /// Nothing could be concluded.
    Unknown,
}

/// A classified probe operation with the detail that led to it.
#[derive(Debug, Clone, PartialEq, Eq)]
pub struct ProbeOperationResult {
    /// The classification.
    pub classification: ProbeClassification,
    /// The detail, when there is one.
    pub detail: Option<String>,
}

/// An error that is no classification: the probe itself is broken.
#[derive(Debug, Clone, PartialEq, Eq)]
pub enum ProbeError {
    /// The request broke the provider contract.
    ContractViolation(String),
    /// The provider failed internally.
    Internal(String),
}

impl ProbeOperationResult {
    /// A classification with its detail.
    pub fn with_detail(classification: ProbeClassification, detail: String) -> (r: Self)
        ensures
            r.classification == classification,
            (r.detail matches Some(d) && d@ == detail@),
    {
        ProbeOperationResult { classification, detail: Some(detail) }
    }
}

/// The classification of a D-Bus failure text: a missing service name is a
/// missing backend during discovery and a momentary outage afterwards;
/// access and authorization refusals are denials; an unknown method,
/// interface or property is unsupported; no reply is a momentary outage;
/// anything else is unknown. The checks go in that order.
pub open spec fn dbus_classification(detail: Seq<char>, context: ProbeContext) -> ProbeClassification {
    if contains_seq(detail, "ServiceUnknown"@) || contains_seq(detail, "NameHasNoOwner"@) {
        match context {
            ProbeContext::BackendDiscovery => ProbeClassification::BackendMissing,
            ProbeContext::EstablishedBackend => ProbeClassification::TemporarilyUnavailable,
        }
    } else if contains_seq(detail, "AccessDenied"@) || contains_seq(detail, "AuthFailed"@) {
        ProbeClassification::PermissionDenied
    } else if contains_seq(detail, "UnknownMethod"@) || contains_seq(detail, "UnknownInterface"@)
        || contains_seq(detail, "UnknownProperty"@) {
        ProbeClassification::Unsupported
    } else if contains_seq(detail, "NoReply"@) {
        ProbeClassification::TemporarilyUnavailable
    } else {
        ProbeClassification::Unknown
    }
}

/// Classify a D-Bus failure text; see [`dbus_classification`].
pub fn classify_dbus_detail(detail: &str, context: ProbeContext) -> (c: ProbeClassification)
    ensures
        c == dbus_classification(detail@, context),
{
    if contains_str(detail, "ServiceUnknown") || contains_str(detail, "NameHasNoOwner") {
        match context {
            ProbeContext::BackendDiscovery => ProbeClassification::BackendMissing,
            ProbeContext::EstablishedBackend => ProbeClassification::TemporarilyUnavailable,
        }
    } else if contains_str(detail, "AccessDenied") || contains_str(detail, "AuthFailed") {
        ProbeClassification::PermissionDenied
    } else if contains_str(detail, "UnknownMethod") || contains_str(detail, "UnknownInterface") || contains_str(
        detail,
        "UnknownProperty",
    ) {
        ProbeClassification::Unsupported
    } else if contains_str(detail, "NoReply") {
        ProbeClassification::TemporarilyUnavailable
    } else {
        ProbeClassification::Unknown
    }
}

/// The probe outcome of a provider error: `Ok` with its classification and
/// detail, or `Err` for a broken request (`InvalidRequest`) or provider
/// (`Internal`).
pub open spec fn probe_outcome(e: ProviderErrorView, context: ProbeContext) -> Result<
    (ProbeClassification, Seq<char>),
    ProbeErrorKind,
> {
    match e {
        ProviderErrorView::BackendUnavailable(d) => Ok(
            (
                match context {
                    ProbeContext::BackendDiscovery => ProbeClassification::BackendMissing,
                    ProbeContext::EstablishedBackend => ProbeClassification::TemporarilyUnavailable,
                },
                d,
            ),
        ),
        ProviderErrorView::Unsupported(d) => Ok((ProbeClassification::Unsupported, d)),
        ProviderErrorView::PermissionDenied(d) => Ok((ProbeClassification::PermissionDenied, d)),
        ProviderErrorView::Timeout(d) => Ok((ProbeClassification::TemporarilyUnavailable, d)),
        ProviderErrorView::Dbus(d) => Ok((dbus_classification(d, context), d)),
        ProviderErrorView::Io(f) => Ok((ProbeClassification::Unknown, f.message)),
        ProviderErrorView::Conflict(d) => Ok((ProbeClassification::Unknown, d)),
        ProviderErrorView::InvalidRequest(d) => Err(ProbeErrorKind::ContractViolation(d)),
        ProviderErrorView::Internal(d) => Err(ProbeErrorKind::Internal(d)),
    }
}

/// Spec form of a [`ProbeError`].
pub enum ProbeErrorKind {
    /// See [`ProbeError::ContractViolation`].
    ContractViolation(Seq<char>),
    /// See [`ProbeError::Internal`].
    Internal(Seq<char>),
}

impl ProviderError {
    /// Classify this error for a capability probe; see [`probe_outcome`].
    pub fn into_probe_result(&self, context: ProbeContext) -> (r: Result<ProbeOperationResult, ProbeError>)
        ensures
            match probe_outcome(self@, context) {
                Ok((c, d)) => r matches Ok(o) && o.classification == c && (o.detail matches Some(x) && x@ == d),
                Err(ProbeErrorKind::ContractViolation(d)) => r matches Err(ProbeError::ContractViolation(x))
                    && x@ == d,
                Err(ProbeErrorKind::Internal(d)) => r matches Err(ProbeError::Internal(x)) && x@ == d,
            },
    {
        let result = match self {
            ProviderError::BackendUnavailable(detail) => ProbeOperationResult::with_detail(
                match context {
                    ProbeContext::BackendDiscovery => ProbeClassification::BackendMissing,
                    ProbeContext::EstablishedBackend => ProbeClassification::TemporarilyUnavailable,
                },
                detail.clone(),
            ),
            ProviderError::Unsupported(detail) => ProbeOperationResult::with_detail(
                ProbeClassification::Unsupported,
                detail.clone(),
            ),
            ProviderError::PermissionDenied(detail) => ProbeOperationResult::with_detail(
                ProbeClassification::PermissionDenied,
                detail.clone(),
            ),
            ProviderError::Timeout(detail) => ProbeOperationResult::with_detail(
                ProbeClassification::TemporarilyUnavailable,
                detail.clone(),
            ),
            ProviderError::Dbus(detail) => ProbeOperationResult::with_detail(
                classify_dbus_detail(detail.as_str(), context),
                detail.clone(),
            ),
            ProviderError::Io(failure) => ProbeOperationResult::with_detail(
                ProbeClassification::Unknown,
                failure.message.clone(),
            ),
            ProviderError::Conflict(detail) => ProbeOperationResult::with_detail(
                ProbeClassification::Unknown,
                detail.clone(),
            ),
            ProviderError::InvalidRequest(detail) => {
                return Err(ProbeError::ContractViolation(detail.clone()));
            },
            ProviderError::Internal(detail) => {
                return Err(ProbeError::Internal(detail.clone()));
            },
        };
        Ok(result)
    }
}

} // verus!
