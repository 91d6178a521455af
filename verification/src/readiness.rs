//! Readiness evidence from one bounded provider operation.
//!
//! Dependency reachability and permission evidence stay independent: a
//! refused permission never makes a dependency unreachable, and an
//! unreachable dependency never invents a permission verdict.
use vstd::prelude::*;
use vstd::string::*;

use crate::error::{ProviderError, ProviderErrorView};
use crate::text::{concat2, concat3, decimal, to_decimal};

verus! {

/// Product features readiness items can gate.
#[derive(Debug, Clone, Copy, PartialEq, Eq, Structural)]
pub enum FeatureId {
    /// Performance profiles.
    Performance,
    /// Battery charge limit.
    ChargeLimit,
    /// Fan curves.
    FanCurves,
    /// dGPU power.
    GpuPower,
    /// GPU MUX.
    GpuMux,
    /// dGPU access policy.
    GpuAccess,
    /// GPU product policy.
    GpuProductPolicy,
    /// Panel overdrive.
    PanelOverdrive,
    /// Mini-LED mode.
    MiniLed,
    /// Screen auto brightness.
    ScreenAutoBrightness,
    /// Keyboard backlight.
    KeyboardBacklight,
    /// Aura RGB.
    Aura,
    /// Display refresh.
    DisplayRefresh,
}

/// State of a dependency.
#[derive(Debug, Clone, Copy, PartialEq, Eq, Structural)]
pub enum ReadinessState {
    /// Reachable and answering.
    Ready,
    /// Present but not running.
    Inactive,
    /// Not present.
    NotAvailable,
    /// Did not answer.
    Unreachable,
    /// Answered with something unclassifiable.
    Unknown,
}

/// Permission evidence.
#[derive(Debug, Clone, Copy, PartialEq, Eq, Structural)]
pub enum PermissionState {
    /// No permission is involved.
    NotRequired,
    /// Granted.
    Granted,
    /// Refused.
    Denied,
    /// Not known.
    Unknown,
}

/// One readiness item.
#[derive(Debug, Clone, PartialEq, Eq)]
pub struct ReadinessItem {
    /// Item identity.
    pub id: String,
    /// Dependency state.
    pub state: ReadinessState,
    /// Features that need it.
    pub required_for: Vec<FeatureId>,
    /// Evidence lines.
    pub evidence: Vec<String>,
    /// Permission evidence.
    pub permission: PermissionState,
}

/// Whether an item blocks a feature: the feature needs it and it is not
/// ready or its permission is refused.
pub open spec fn item_blocks(item: ReadinessItem, feature: FeatureId) -> bool {
    item.required_for@.contains(feature) && (item.state != ReadinessState::Ready || item.permission
        == PermissionState::Denied)
}

impl ReadinessItem {
    /// Whether the item blocks `feature`.
    pub fn blocks(&self, feature: FeatureId) -> (b: bool)
        ensures
            b == item_blocks(*self, feature),
    {
        let mut needed = false;
        let mut i: usize = 0;
        while i < self.required_for.len()
            invariant
                0 <= i <= self.required_for@.len(),
                needed == self.required_for@.take(i as int).contains(feature),
            decreases self.required_for@.len() - i,
        {
            let ghost prev = self.required_for@.take(i as int);
            let ghost next = self.required_for@.take(i + 1);
            let ghost x = self.required_for@[i as int];
            assert(next =~= prev.push(x));
            assert(next.contains(feature) == (prev.contains(feature) || x == feature)) by {
                if prev.contains(feature) {
                    let j = choose|j: int| 0 <= j < prev.len() && prev[j] == feature;
                    assert(next[j] == feature);
                }
                if x == feature {
                    assert(next[i as int] == feature);
                }
                if next.contains(feature) {
                    let j = choose|j: int| 0 <= j < next.len() && next[j] == feature;
                    if j < i {
                        assert(prev[j] == feature);
                    }
                }
            }
            if self.required_for[i] == feature {
                needed = true;
            }
            i = i + 1;
        }
        assert(self.required_for@.take(self.required_for@.len() as int) =~= self.required_for@);
        needed && (self.state != ReadinessState::Ready || self.permission == PermissionState::Denied)
    }
}

/// The permission evidence when the operation says nothing about it.
pub open spec fn permission_unknown(required: bool) -> PermissionState {
    if required {
        PermissionState::Unknown
    } else {
        PermissionState::NotRequired
    }
}

/// State, permission and evidence line of an operation outcome (`Ok` holds
/// the `Debug` text of the value): success is ready with the permission
/// granted when one is required; a refused permission keeps the dependency
/// ready; unsupported is not available; an absent backend is inactive; a
/// timeout, D-Bus or I/O failure is unreachable; an internal or invalid
/// request is unknown.
pub open spec fn probe_outcome(operation: Seq<char>, permission_required: bool, outcome: Result<Seq<char>, ProviderErrorView>) -> (
    ReadinessState,
    PermissionState,
    Seq<char>,
) {
    match outcome {
        Ok(v) => (
            ReadinessState::Ready,
            if permission_required {
                PermissionState::Granted
            } else {
                PermissionState::NotRequired
            },
            operation + ": "@ + v,
        ),
        Err(e) => match e {
            ProviderErrorView::PermissionDenied(d) => (ReadinessState::Ready, PermissionState::Denied, d),
            ProviderErrorView::Unsupported(d) => (
                ReadinessState::NotAvailable,
                permission_unknown(permission_required),
                d,
            ),
            ProviderErrorView::BackendUnavailable(d) => (
                ReadinessState::Inactive,
                permission_unknown(permission_required),
                d,
            ),
            ProviderErrorView::Timeout(d) | ProviderErrorView::Dbus(d) => (
                ReadinessState::Unreachable,
                permission_unknown(permission_required),
                d,
            ),
            ProviderErrorView::Io(f) => (
                ReadinessState::Unreachable,
                permission_unknown(permission_required),
                f.message,
            ),
            ProviderErrorView::Internal(d) | ProviderErrorView::InvalidRequest(d)
            | ProviderErrorView::Conflict(d) => (
                ReadinessState::Unknown,
                permission_unknown(permission_required),
                d,
            ),
        },
    }
}

/// The readiness item of one bounded read-only operation, from its outcome
/// (the value's `Debug` text, or the provider error, a timeout included).
pub fn bounded_readiness_probe(
    id: &str,
    operation: &str,
    required_for: Vec<FeatureId>,
    permission_required: bool,
    outcome: Result<String, ProviderError>,
) -> (item: ReadinessItem)
    ensures
        item.id@ == id@,
        item.required_for == required_for,
        item.evidence@.len() == 1,
        (item.state, item.permission, item.evidence@[0]@) == probe_outcome(
            operation@,
            permission_required,
            match outcome {
                Ok(v) => Ok(v@),
                Err(e) => Err(e@),
            },
        ),
{
    let unknown = if permission_required {
        PermissionState::Unknown
    } else {
        PermissionState::NotRequired
    };
    let (state, permission, line) = match outcome {
        Ok(v) => (
            ReadinessState::Ready,
            if permission_required {
                PermissionState::Granted
            } else {
                PermissionState::NotRequired
            },
            concat3(operation, ": ", v.as_str()),
        ),
        Err(ProviderError::PermissionDenied(d)) => (ReadinessState::Ready, PermissionState::Denied, d),
        Err(ProviderError::Unsupported(d)) => (ReadinessState::NotAvailable, unknown, d),
        Err(ProviderError::BackendUnavailable(d)) => (ReadinessState::Inactive, unknown, d),
        Err(ProviderError::Timeout(d)) => (ReadinessState::Unreachable, unknown, d),
        Err(ProviderError::Dbus(d)) => (ReadinessState::Unreachable, unknown, d),
        Err(ProviderError::Io(f)) => (ReadinessState::Unreachable, unknown, f.message),
        Err(ProviderError::Internal(d)) => (ReadinessState::Unknown, unknown, d),
        Err(ProviderError::InvalidRequest(d)) => (ReadinessState::Unknown, unknown, d),
        Err(ProviderError::Conflict(d)) => (ReadinessState::Unknown, unknown, d),
    };
    let mut evidence: Vec<String> = Vec::new();
    evidence.push(line);
    ReadinessItem { id: id.to_owned(), state, required_for, evidence, permission }
}

/// The error of an operation that did not finish within the provider's
/// declared timeout; provider and operation identity are kept.
pub open spec fn timeout_error_of(provider_id: Seq<char>, operation: Seq<char>, limit_ms: nat) -> ProviderErrorView {
    ProviderErrorView::Timeout(
        "provider '"@ + provider_id + "' operation '"@ + operation + "' exceeded "@ + decimal(limit_ms)
            + " ms"@,
    )
}

/// The error of an operation that exceeded the provider timeout.
pub fn timeout_error(provider_id: &str, operation: &str, limit_ms: u64) -> (e: ProviderError)
    ensures
        e@ == timeout_error_of(provider_id@, operation@, limit_ms as nat),
{
    let mut m = concat3("provider '", provider_id, "' operation '");
    m.append(operation);
    m.append("' exceeded ");
    let d = to_decimal(limit_ms);
    m.append(d.as_str());
    m.append(" ms");
    ProviderError::Timeout(m)
}

/// The outcome of a bounded call: the operation's own result when it
/// finished in time (values and errors unchanged, never retried), else the
/// timeout error.
pub fn bounded_outcome<T>(provider_id: &str, operation: &str, limit_ms: u64, finished: Option<Result<T, ProviderError>>) -> (r: Result<
    T,
    ProviderError,
>)
    ensures
        match finished {
            Some(x) => r == x,
            None => r matches Err(e) && e@ == timeout_error_of(provider_id@, operation@, limit_ms as nat),
        },
{
    match finished {
        Some(x) => x,
        None => Err(timeout_error(provider_id, operation, limit_ms)),
    }
}

/// A refused permission never makes the dependency unreachable or
/// unavailable: the item stays ready with the permission denied.
pub proof fn lemma_permission_separate_from_dependency(operation: Seq<char>, required: bool, detail: Seq<char>)
    ensures
        probe_outcome(operation, required, Err(ProviderErrorView::PermissionDenied(detail))).0
            == ReadinessState::Ready,
        probe_outcome(operation, required, Err(ProviderErrorView::PermissionDenied(detail))).1
            == PermissionState::Denied,
{
}

/// Only a refused permission yields denied permission evidence; a failure
/// never claims the permission was granted.
pub proof fn lemma_failures_never_grant(operation: Seq<char>, required: bool, e: ProviderErrorView)
    ensures
        probe_outcome(operation, required, Err(e)).1 != PermissionState::Granted,
        (probe_outcome(operation, required, Err(e)).1 == PermissionState::Denied) == (e is PermissionDenied),
{
}

} // verus!
