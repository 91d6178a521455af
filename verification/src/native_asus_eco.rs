//! Read-only feasibility preflight for a native ASUS live Eco transition.
//!
//! A snapshot of firmware, driver, process and supergfxd evidence is sorted
//! into four severity buckets (hard blockers, release work, informational,
//! unknown) and a typed transition plan. The planner is conservative: any
//! inconsistency, unresolved verification or missing capability keeps the
//! transition from being reported as immediately ready.
use vstd::prelude::*;
use vstd::string::*;

use crate::paths::{below, path_below};
use crate::gpu::{opt_access_debug, opt_access_to_debug, GpuAccessPolicy, GpuMuxState};
use crate::supergfxd::{
    action_debug, mode_debug, SupergfxdMode, SupergfxdSnapshot, SupergfxdUserAction,
};
use crate::text::{
    chars_of, contains_at, contains_seq, contains_str, find_char, index_of, lines, next_line,
    parse_unsigned, parse_unsigned_at, starts_with_str, str_eq, trim, trimmed, bool_text, bool_to_text, clone_strings, debug_string_list, debug_strings, decimal, one_string,
    opt_bool_debug, opt_bool_to_debug, opt_u64_debug, opt_u64_to_debug, strs, to_decimal,
};

verus! {

/// Severity of read-only evidence for a native live Eco transition.
#[derive(Debug, Clone, Copy, PartialEq, Eq, Structural)]
pub enum EcoEvidenceSeverity {
    /// The observed state makes the transition unsafe or impossible.
    HardBlocker,
    /// A typed release/verification phase is required before the transition.
    ReleaseRequired,
    /// Evidence is useful but does not prevent a transition by itself.
    Informational,
    /// The evidence needed to make a safe decision is unavailable.
    Unknown,
}

/// Why a native live Eco transition is blocked or needs release work.
#[derive(Debug, Clone, Copy, PartialEq, Eq, Structural)]
pub enum EcoLiveBlocker {
    /// A process owns an NVIDIA character device.
    NvidiaDeviceUser,
    /// A process owns an NVIDIA DRM node.
    NvidiaDrmUser,
    /// A process owns an NVIDIA I²C adapter.
    NvidiaI2cUser,
    /// A process maps NVIDIA device/library state.
    NvidiaMappedLibrary,
    /// NVIDIA kernel module cannot currently be unloaded.
    NvidiaModuleBusy,
    /// The NVIDIA module stack is still loaded and must be released.
    NvidiaModulesLoaded,
    /// No non-NVIDIA DRM device remains for the display stack.
    MissingIntegratedDrm,
    /// MUX is in dGPU display mode.
    MuxDiscrete,
    /// supergfxd has an in-flight mutation.
    PendingGpuMutation,
    /// Backend and primitive state disagree.
    BackendStateConflict,
    /// Evidence is unreadable or not classifiable.
    Unknown,
}

/// Typed operation required by a pure native Eco transition plan.
#[derive(Debug, Clone, Copy, PartialEq, Eq, Structural)]
pub enum EcoReleaseRequirement {
    /// Release userspace processes with an NVIDIA device workload.
    ReleaseApplicationGpuUsers,
    /// Release a secondary NVIDIA DRM card reference.
    ReleaseSecondaryDrmDevice,
    /// Re-scan users and verify that no NVIDIA users remain.
    VerifyNvidiaUsers,
    /// Verify that the NVIDIA module family can be unloaded.
    VerifyNvidiaModuleUnload,
    /// Unload the loaded NVIDIA module family.
    UnloadNvidiaModules,
    /// Verify that the compositor released all NVIDIA DRM/core users.
    VerifyCompositorRelease,
}

/// Pure transition plan. It contains capabilities, never shell commands.
#[derive(Debug, Clone, PartialEq, Eq)]
pub enum EcoTransitionPlan {
    /// No release or unresolved verification is present in the snapshot.
    ReadyImmediately,
    /// The state can be prepared by a future release executor.
    CanBecomeReady {
        /// Typed release/verification requirements.
        release_requirements: Vec<EcoReleaseRequirement>,
        /// Evidence that must be resolved before mutation is allowed.
        unresolved: Vec<String>,
    },
    /// The graphical session must be ended before proceeding.
    RequiresLogout(String),
    /// The transition cannot be completed until reboot.
    RequiresReboot(String),
    /// The required capability is absent.
    Unsupported(Vec<String>),
    /// Hardware/backend sources contradict one another.
    Inconsistent(Vec<String>),
}

/// Read-only diagnostic evidence kept separate from the domain verdict.
#[derive(Debug, Clone, PartialEq, Eq)]
pub struct EcoDiagnosticEvidence {
    /// Severity assigned by the pure planner.
    pub severity: EcoEvidenceSeverity,
    /// Stable category.
    pub category: EcoLiveBlocker,
    /// Human-readable, non-UI-contract detail.
    pub detail: String,
}

/// Coarse NVIDIA holder kind; no PID is part of the domain model.
#[derive(Debug, Clone, Copy, PartialEq, Eq, Structural)]
pub enum NvidiaHolderKind {
    /// `/dev/nvidia*`.
    Device,
    /// NVIDIA-owned DRM card or render node in `/dev/dri/*`.
    Drm,
    /// NVIDIA-owned `/dev/i2c-*`.
    I2c,
    /// NVIDIA device mapping in `/proc/<pid>/maps`.
    MappedLibrary,
}

/// Read-only holder summary.
#[derive(Debug, Clone, PartialEq, Eq)]
pub struct NvidiaHolderEvidence {
    /// Holder class.
    pub kind: NvidiaHolderKind,
    /// Number of observed holders.
    pub count: usize,
    /// Optional diagnostic details (process names/units, not UI DTOs).
    pub details: Vec<String>,
}

/// Read-only kernel and process snapshot consumed by the pure classifier.
#[derive(Debug, Clone, PartialEq, Eq)]
pub struct EcoLivePreflightSnapshot {
    /// Whether both Armoury attributes exist.
    pub armoury_supported: bool,
    /// Whether `dgpu_disable` accepts 0 and 1.
    pub dgpu_disable_values: Option<Vec<u32>>,
    /// Current dGPU disable state.
    pub dgpu_disabled: Option<bool>,
    /// Current physical MUX state.
    pub mux: Option<GpuMuxState>,
    /// Current access policy.
    pub access: Option<GpuAccessPolicy>,
    /// At least one NVIDIA PCI function is present.
    pub nvidia_pci_present: bool,
    /// Runtime status of observed NVIDIA functions.
    pub nvidia_runtime_status: Vec<String>,
    /// NVIDIA module presence and refcount evidence.
    pub nvidia_modules_loaded: bool,
    /// Module refcount evidence; `None` means unreadable.
    pub nvidia_module_refcount: Option<u64>,
    /// Whether module state is known busy.
    pub nvidia_module_busy: Option<bool>,
    /// Whether a prior, authoritative unload-feasibility result exists.
    /// `None` means no unload was attempted or the result is unavailable.
    pub nvidia_module_unload_feasible: Option<bool>,
    /// Holder summaries.
    pub holders: Vec<NvidiaHolderEvidence>,
    /// A non-NVIDIA DRM card/render device exists.
    pub integrated_drm_present: bool,
    /// Whether the current compositor can release all NVIDIA DRM/core users
    /// live. `None` is intentionally unresolved, not success. A proven
    /// card-minor release does not imply that render/core users are gone.
    pub compositor_release_supported: Option<bool>,
    /// Fresh supergfxd snapshot.
    pub supergfxd: Option<SupergfxdSnapshot>,
    /// Read errors and unknown evidence.
    pub unknown: Vec<String>,
}

/// Final read-only feasibility verdict.
#[derive(Debug, Clone, PartialEq, Eq)]
pub enum EcoLiveReadiness {
    /// All currently observable preconditions pass.
    Ready,
    /// One or more typed blockers exist.
    Blocked {
        /// Stable blocker categories.
        reasons: Vec<EcoLiveBlocker>,
        /// Supporting diagnostics.
        evidence: Vec<EcoDiagnosticEvidence>,
    },
    /// Required firmware capability is absent.
    Unsupported(Vec<String>),
    /// State sources contradict one another.
    Inconsistent(Vec<String>),
}

/// Pure assessment containing severity buckets and the resulting plan.
#[derive(Debug, Clone, PartialEq, Eq)]
pub struct EcoLiveAssessment {
    /// Hard blockers.
    pub hard_blockers: Vec<EcoDiagnosticEvidence>,
    /// Release work required before mutation.
    pub release_required: Vec<EcoDiagnosticEvidence>,
    /// Non-blocking observations.
    pub informational: Vec<EcoDiagnosticEvidence>,
    /// Missing critical evidence.
    pub unknown: Vec<EcoDiagnosticEvidence>,
    /// Pure transition result.
    pub plan: EcoTransitionPlan,
}

// ---------------------------------------------------------------------------
// Mathematical model
// ---------------------------------------------------------------------------

/// Spec view of one piece of diagnostic evidence.
pub struct EvidenceView {
    /// Severity bucket.
    pub severity: EcoEvidenceSeverity,
    /// Stable category.
    pub category: EcoLiveBlocker,
    /// Detail text.
    pub detail: Seq<char>,
}

impl View for EcoDiagnosticEvidence {
    type V = EvidenceView;

    open spec fn view(&self) -> EvidenceView {
        EvidenceView { severity: self.severity, category: self.category, detail: self.detail@ }
    }
}

/// Spec view of a transition plan.
pub enum PlanView {
    /// See [`EcoTransitionPlan::ReadyImmediately`].
    ReadyImmediately,
    /// See [`EcoTransitionPlan::CanBecomeReady`].
    CanBecomeReady { release_requirements: Seq<EcoReleaseRequirement>, unresolved: Seq<Seq<char>> },
    /// See [`EcoTransitionPlan::RequiresLogout`].
    RequiresLogout(Seq<char>),
    /// See [`EcoTransitionPlan::RequiresReboot`].
    RequiresReboot(Seq<char>),
    /// See [`EcoTransitionPlan::Unsupported`].
    Unsupported(Seq<Seq<char>>),
    /// See [`EcoTransitionPlan::Inconsistent`].
    Inconsistent(Seq<Seq<char>>),
}

impl View for EcoTransitionPlan {
    type V = PlanView;

    open spec fn view(&self) -> PlanView {
        match self {
            EcoTransitionPlan::ReadyImmediately => PlanView::ReadyImmediately,
            EcoTransitionPlan::CanBecomeReady { release_requirements, unresolved } =>
                PlanView::CanBecomeReady {
                release_requirements: release_requirements@,
                unresolved: strs(unresolved@),
            },
            EcoTransitionPlan::RequiresLogout(s) => PlanView::RequiresLogout(s@),
            EcoTransitionPlan::RequiresReboot(s) => PlanView::RequiresReboot(s@),
            EcoTransitionPlan::Unsupported(v) => PlanView::Unsupported(strs(v@)),
            EcoTransitionPlan::Inconsistent(v) => PlanView::Inconsistent(strs(v@)),
        }
    }
}

/// Spec view of an assessment.
pub struct AssessmentView {
    /// Hard blockers.
    pub hard_blockers: Seq<EvidenceView>,
    /// Release work.
    pub release_required: Seq<EvidenceView>,
    /// Informational evidence.
    pub informational: Seq<EvidenceView>,
    /// Unknown evidence.
    pub unknown: Seq<EvidenceView>,
    /// The plan.
    pub plan: PlanView,
}

impl View for EcoLiveAssessment {
    type V = AssessmentView;

    open spec fn view(&self) -> AssessmentView {
        AssessmentView {
            hard_blockers: evs(self.hard_blockers@),
            release_required: evs(self.release_required@),
            informational: evs(self.informational@),
            unknown: evs(self.unknown@),
            plan: self.plan@,
        }
    }
}

/// Spec view of a readiness verdict.
pub enum ReadinessView {
    /// See [`EcoLiveReadiness::Ready`].
    Ready,
    /// See [`EcoLiveReadiness::Blocked`].
    Blocked { reasons: Seq<EcoLiveBlocker>, evidence: Seq<EvidenceView> },
    /// See [`EcoLiveReadiness::Unsupported`].
    Unsupported(Seq<Seq<char>>),
    /// See [`EcoLiveReadiness::Inconsistent`].
    Inconsistent(Seq<Seq<char>>),
}

impl View for EcoLiveReadiness {
    type V = ReadinessView;

    open spec fn view(&self) -> ReadinessView {
        match self {
            EcoLiveReadiness::Ready => ReadinessView::Ready,
            EcoLiveReadiness::Blocked { reasons, evidence } => ReadinessView::Blocked {
                reasons: reasons@,
                evidence: evs(evidence@),
            },
            EcoLiveReadiness::Unsupported(v) => ReadinessView::Unsupported(strs(v@)),
            EcoLiveReadiness::Inconsistent(v) => ReadinessView::Inconsistent(strs(v@)),
        }
    }
}

/// The views of a list of evidence.
pub open spec fn evs(v: Seq<EcoDiagnosticEvidence>) -> Seq<EvidenceView> {
    v.map_values(|e: EcoDiagnosticEvidence| e@)
}

/// The detail texts of a list of evidence.
pub open spec fn details(v: Seq<EvidenceView>) -> Seq<Seq<char>> {
    v.map_values(|e: EvidenceView| e.detail)
}

/// The categories of a list of evidence.
pub open spec fn categories(v: Seq<EvidenceView>) -> Seq<EcoLiveBlocker> {
    v.map_values(|e: EvidenceView| e.category)
}

/// Whether some evidence in `v` has category `c`.
pub open spec fn has_cat(v: Seq<EvidenceView>, c: EcoLiveBlocker) -> bool {
    exists|i: int| 0 <= i < v.len() && #[trigger] v[i].category == c
}

/// One piece of evidence.
pub open spec fn ev(severity: EcoEvidenceSeverity, category: EcoLiveBlocker, detail: Seq<char>) -> EvidenceView {
    EvidenceView { severity, category, detail }
}

/// `[e]` when `b` holds, `[]` otherwise.
pub open spec fn when<T>(b: bool, e: T) -> Seq<T> {
    if b {
        seq![e]
    } else {
        seq![]
    }
}

/// Whether the firmware enumerates exactly `0;1` for `dgpu_disable`.
pub open spec fn dgpu_values_ok(s: EcoLivePreflightSnapshot) -> bool {
    s.dgpu_disable_values matches Some(v) && v@ == seq![0u32, 1u32]
}

/// Whether the firmware capability checks pass.
pub open spec fn capability_ok(s: EcoLivePreflightSnapshot) -> bool {
    s.armoury_supported && dgpu_values_ok(s)
}

/// The category a holder kind is reported under.
pub open spec fn holder_category(k: NvidiaHolderKind) -> EcoLiveBlocker {
    match k {
        NvidiaHolderKind::Device => EcoLiveBlocker::NvidiaDeviceUser,
        NvidiaHolderKind::Drm => EcoLiveBlocker::NvidiaDrmUser,
        NvidiaHolderKind::I2c => EcoLiveBlocker::NvidiaI2cUser,
        NvidiaHolderKind::MappedLibrary => EcoLiveBlocker::NvidiaMappedLibrary,
    }
}

/// `"{count} holder(s): {details:?}"`.
pub open spec fn holder_detail(h: NvidiaHolderEvidence) -> Seq<char> {
    decimal(h.count as nat) + " holder(s): "@ + debug_strings(strs(h.details@))
}

/// Evidence of an observed holder: mapped libraries are informational, open
/// device, DRM and I²C handles need release.
pub open spec fn holder_evidence(h: NvidiaHolderEvidence) -> EvidenceView {
    ev(
        if h.kind == NvidiaHolderKind::MappedLibrary {
            EcoEvidenceSeverity::Informational
        } else {
            EcoEvidenceSeverity::ReleaseRequired
        },
        holder_category(h.kind),
        holder_detail(h),
    )
}

/// Release evidence of a holder, if it has users that must be released.
pub open spec fn released_holder(h: NvidiaHolderEvidence) -> Option<EvidenceView> {
    if h.count > 0 && h.kind != NvidiaHolderKind::MappedLibrary {
        Some(holder_evidence(h))
    } else {
        None
    }
}

/// Informational evidence of a holder, if it only maps NVIDIA libraries.
pub open spec fn observed_holder(h: NvidiaHolderEvidence) -> Option<EvidenceView> {
    if h.count > 0 && h.kind == NvidiaHolderKind::MappedLibrary {
        Some(holder_evidence(h))
    } else {
        None
    }
}

/// The release evidence of the holders, in holder order.
pub open spec fn released_holders(hs: Seq<NvidiaHolderEvidence>) -> Seq<EvidenceView> {
    hs.filter_map(|h: NvidiaHolderEvidence| released_holder(h))
}

/// The informational evidence of the holders, in holder order.
pub open spec fn observed_holders(hs: Seq<NvidiaHolderEvidence>) -> Seq<EvidenceView> {
    hs.filter_map(|h: NvidiaHolderEvidence| observed_holder(h))
}

/// Whether supergfxd has a mutation in flight.
pub open spec fn pending_mutation(g: SupergfxdSnapshot) -> bool {
    g.pending_mode != SupergfxdMode::NoMode || g.pending_user_action != SupergfxdUserAction::Nothing
}

/// `"supergfxd pending={:?} action={:?}"`.
pub open spec fn pending_detail(g: SupergfxdSnapshot) -> Seq<char> {
    "supergfxd pending="@ + mode_debug(g.pending_mode) + " action="@ + action_debug(
        g.pending_user_action,
    )
}

/// Whether a supergfxd wire value was not recognised.
pub open spec fn unknown_wire(g: SupergfxdSnapshot) -> bool {
    g.current_mode is Unknown || g.pending_mode is Unknown || g.pending_user_action is Unknown
}

/// Whether the supergfxd mode contradicts `dgpu_disable`.
pub open spec fn mode_contradicts(s: EcoLivePreflightSnapshot, g: SupergfxdSnapshot) -> bool {
    (g.current_mode == SupergfxdMode::Integrated && s.dgpu_disabled == Some(false)) || (
    g.current_mode == SupergfxdMode::Hybrid && s.dgpu_disabled == Some(true))
}

/// `"loaded={} refcount={:?} busy={:?}"`.
pub open spec fn module_detail(s: EcoLivePreflightSnapshot) -> Seq<char> {
    "loaded="@ + bool_text(s.nvidia_modules_loaded) + " refcount="@ + opt_u64_debug(
        s.nvidia_module_refcount,
    ) + " busy="@ + opt_bool_debug(s.nvidia_module_busy)
}

/// `"access={:?} nvidia_pci_present={}"`.
pub open spec fn access_detail(s: EcoLivePreflightSnapshot) -> Seq<char> {
    "access="@ + opt_access_debug(s.access) + " nvidia_pci_present="@ + bool_text(
        s.nvidia_pci_present,
    )
}

/// Contradictions: read errors carried by the snapshot, an incomplete
/// Armoury read, unknown supergfxd wire values, a supergfxd mode that
/// contradicts `dgpu_disable`, and a missing supergfxd snapshot, in that order.
pub open spec fn eco_inconsistencies(s: EcoLivePreflightSnapshot) -> Seq<Seq<char>> {
    strs(s.unknown@) + when(
        s.dgpu_disabled is None || s.mux is None || s.access is None,
        "Armoury primitive read is incomplete"@,
    ) + match s.supergfxd {
        Some(g) => when(unknown_wire(g), "unknown supergfxd wire state"@) + when(
            mode_contradicts(s, g),
            "supergfxd mode contradicts dgpu_disable"@,
        ),
        None => seq!["supergfxd snapshot unavailable"@],
    }
}

/// A pending supergfxd mutation, as a hard blocker.
pub open spec fn pending_blocker(s: EcoLivePreflightSnapshot) -> Seq<EvidenceView> {
    match s.supergfxd {
        Some(g) => when(
            pending_mutation(g),
            ev(EcoEvidenceSeverity::HardBlocker, EcoLiveBlocker::PendingGpuMutation, pending_detail(g)),
        ),
        None => seq![],
    }
}

/// Hard blockers: a pending supergfxd mutation, a MUX routed to the dGPU, no
/// integrated DRM device, and an access policy or PCI presence that conflicts
/// with the backend, in that order.
pub open spec fn eco_hard(s: EcoLivePreflightSnapshot) -> Seq<EvidenceView> {
    pending_blocker(s) + when(
        s.mux == Some(GpuMuxState::Discrete),
        ev(EcoEvidenceSeverity::HardBlocker, EcoLiveBlocker::MuxDiscrete, "MUX is routed to the dGPU"@),
    ) + when(
        !s.integrated_drm_present,
        ev(
            EcoEvidenceSeverity::HardBlocker,
            EcoLiveBlocker::MissingIntegratedDrm,
            "no non-NVIDIA DRM device detected"@,
        ),
    ) + when(
        s.access != Some(GpuAccessPolicy::Unblocked) || !s.nvidia_pci_present,
        ev(EcoEvidenceSeverity::HardBlocker, EcoLiveBlocker::BackendStateConflict, access_detail(s)),
    )
}

/// Release work: every holder with open device, DRM or I²C handles, then the
/// loaded module stack.
pub open spec fn eco_release(s: EcoLivePreflightSnapshot) -> Seq<EvidenceView> {
    released_holders(s.holders@) + when(
        s.nvidia_modules_loaded,
        ev(
            EcoEvidenceSeverity::ReleaseRequired,
            EcoLiveBlocker::NvidiaModulesLoaded,
            "NVIDIA module stack is loaded; unload and verify before firmware transition"@,
        ),
    )
}

/// Informational evidence: every holder that only maps NVIDIA libraries,
/// then the module state when the module is loaded or its refcount is known.
pub open spec fn eco_info(s: EcoLivePreflightSnapshot) -> Seq<EvidenceView> {
    observed_holders(s.holders@) + when(
        s.nvidia_module_refcount is Some || s.nvidia_modules_loaded,
        ev(EcoEvidenceSeverity::Informational, EcoLiveBlocker::NvidiaModuleBusy, module_detail(s)),
    )
}

/// Unknown evidence: a loaded module whose unload was not proven feasible,
/// and release work without a proven compositor release.
pub open spec fn eco_unknown(s: EcoLivePreflightSnapshot) -> Seq<EvidenceView> {
    when(
        s.nvidia_modules_loaded && s.nvidia_module_unload_feasible != Some(true),
        ev(
            EcoEvidenceSeverity::Unknown,
            EcoLiveBlocker::Unknown,
            "NVIDIA module unload feasibility is unresolved: "@ + opt_bool_debug(
                s.nvidia_module_unload_feasible,
            ),
        ),
    ) + when(
        s.compositor_release_supported != Some(true) && eco_release(s).len() > 0,
        ev(
            EcoEvidenceSeverity::Unknown,
            EcoLiveBlocker::Unknown,
            "supported live compositor DRM release is unresolved"@,
        ),
    )
}

/// Release requirements derived from the release and unknown buckets.
pub open spec fn eco_requirements(
    release: Seq<EvidenceView>,
    unknown: Seq<EvidenceView>,
) -> Seq<EcoReleaseRequirement> {
    when(
        has_cat(release, EcoLiveBlocker::NvidiaDeviceUser),
        EcoReleaseRequirement::ReleaseApplicationGpuUsers,
    ) + when(
        has_cat(release, EcoLiveBlocker::NvidiaDrmUser),
        EcoReleaseRequirement::ReleaseSecondaryDrmDevice,
    ) + when(
        has_cat(release, EcoLiveBlocker::NvidiaModulesLoaded),
        EcoReleaseRequirement::UnloadNvidiaModules,
    ) + (if release.len() > 0 {
        seq![
            EcoReleaseRequirement::VerifyNvidiaUsers,
            EcoReleaseRequirement::VerifyNvidiaModuleUnload,
        ]
    } else {
        seq![]
    }) + when(unknown.len() > 0, EcoReleaseRequirement::VerifyCompositorRelease)
}

/// The plan once the firmware capability checks passed and no contradiction
/// was found.
pub open spec fn plan_of_buckets(
    hard: Seq<EvidenceView>,
    release: Seq<EvidenceView>,
    unknown: Seq<EvidenceView>,
) -> PlanView {
    if has_cat(hard, EcoLiveBlocker::MuxDiscrete) {
        PlanView::RequiresReboot("MUX is routed to the dGPU"@)
    } else if has_cat(hard, EcoLiveBlocker::MissingIntegratedDrm) {
        PlanView::Unsupported(seq!["no non-NVIDIA DRM device detected"@])
    } else if hard.len() > 0 {
        PlanView::CanBecomeReady {
            release_requirements: eco_requirements(release, unknown),
            unresolved: details(hard),
        }
    } else if release.len() == 0 && unknown.len() == 0 {
        PlanView::ReadyImmediately
    } else {
        PlanView::CanBecomeReady {
            release_requirements: eco_requirements(release, unknown),
            unresolved: details(unknown),
        }
    }
}

/// The full assessment of a snapshot.
///
/// Missing Armoury attributes or a `dgpu_disable` enumeration other than
/// `0;1` make the transition unsupported before any evidence is collected.
/// Otherwise every bucket is filled, contradictions make the plan
/// inconsistent, and the plan follows from the buckets.
pub open spec fn eco_assessment(s: EcoLivePreflightSnapshot) -> AssessmentView {
    if !s.armoury_supported {
        AssessmentView {
            hard_blockers: seq![],
            release_required: seq![],
            informational: seq![],
            unknown: seq![],
            plan: PlanView::Unsupported(seq!["ASUS Armoury dgpu_disable/gpu_mux_mode ABI"@]),
        }
    } else if !dgpu_values_ok(s) {
        AssessmentView {
            hard_blockers: seq![],
            release_required: seq![],
            informational: seq![],
            unknown: seq![],
            plan: PlanView::Unsupported(seq!["dgpu_disable enumeration 0;1"@]),
        }
    } else {
        AssessmentView {
            hard_blockers: eco_hard(s),
            release_required: eco_release(s),
            informational: eco_info(s),
            unknown: eco_unknown(s),
            plan: if eco_inconsistencies(s).len() > 0 {
                PlanView::Inconsistent(eco_inconsistencies(s))
            } else {
                plan_of_buckets(eco_hard(s), eco_release(s), eco_unknown(s))
            },
        }
    }
}

/// `acc` with `x` appended unless it already occurs.
pub open spec fn push_unique_spec<T>(acc: Seq<T>, x: T) -> Seq<T> {
    if acc.contains(x) {
        acc
    } else {
        acc.push(x)
    }
}

/// The distinct elements of `s`, in order of first occurrence.
pub open spec fn first_occurrences<T>(s: Seq<T>) -> Seq<T>
    decreases s.len(),
{
    if s.len() == 0 {
        seq![]
    } else {
        push_unique_spec(first_occurrences(s.drop_last()), s.last())
    }
}

/// The readiness verdict of an assessment: an unsupported or inconsistent
/// plan is passed through; otherwise the verdict is ready when no hard
/// blocker, release work or unknown evidence remains, and blocked with the
/// distinct categories of the hard and release evidence and all hard,
/// release and unknown evidence otherwise.
pub open spec fn readiness_of(a: AssessmentView) -> ReadinessView {
    match a.plan {
        PlanView::Unsupported(r) => ReadinessView::Unsupported(r),
        PlanView::Inconsistent(r) => ReadinessView::Inconsistent(r),
        _ => {
            let blocking = a.hard_blockers + a.release_required;
            if blocking.len() == 0 && a.unknown.len() == 0 {
                ReadinessView::Ready
            } else {
                ReadinessView::Blocked {
                    reasons: first_occurrences(categories(blocking)),
                    evidence: blocking + a.unknown,
                }
            }
        },
    }
}

// ---------------------------------------------------------------------------
// Lemmas on the list views
// ---------------------------------------------------------------------------

/// Appending evidence appends its view.
proof fn lemma_evs_push(v: Seq<EcoDiagnosticEvidence>, e: EcoDiagnosticEvidence)
    ensures
        evs(v.push(e)) == evs(v).push(e@),
{
    assert(evs(v.push(e)) =~= evs(v).push(e@));
}

/// Appending a string appends its view.
proof fn lemma_strs_push(v: Seq<String>, e: String)
    ensures
        strs(v.push(e)) == strs(v).push(e@),
{
    assert(strs(v.push(e)) =~= strs(v).push(e@));
}

/// `a + when(b, e)` is `a` with `e` pushed exactly when `b`.
proof fn lemma_when<T>(a: Seq<T>, b: bool, e: T)
    ensures
        a + when(b, e) == (if b {
            a.push(e)
        } else {
            a
        }),
{
    assert(a + when(b, e) =~= (if b {
        a.push(e)
    } else {
        a
    }));
}

/// One more holder extends the release and informational holder lists by
/// that holder's evidence, if any.
proof fn lemma_holders_take_succ(hs: Seq<NvidiaHolderEvidence>, i: int)
    requires
        0 <= i < hs.len(),
    ensures
        released_holders(hs.take(i + 1)) == released_holders(hs.take(i)) + match released_holder(
            hs[i],
        ) {
            Some(e) => seq![e],
            None => Seq::<EvidenceView>::empty(),
        },
        observed_holders(hs.take(i + 1)) == observed_holders(hs.take(i)) + match observed_holder(
            hs[i],
        ) {
            Some(e) => seq![e],
            None => Seq::<EvidenceView>::empty(),
        },
{
    hs.lemma_filter_map_take_succ(|h: NvidiaHolderEvidence| released_holder(h), i);
    hs.lemma_filter_map_take_succ(|h: NvidiaHolderEvidence| observed_holder(h), i);
}

// ---------------------------------------------------------------------------
// Executable planner
// ---------------------------------------------------------------------------

fn evidence(severity: EcoEvidenceSeverity, category: EcoLiveBlocker, detail: String) -> (e:
    EcoDiagnosticEvidence)
    ensures
        e@ == ev(severity, category, detail@),
{
    EcoDiagnosticEvidence { severity, category, detail }
}

fn clone_evidence(e: &EcoDiagnosticEvidence) -> (c: EcoDiagnosticEvidence)
    ensures
        c@ == e@,
{
    EcoDiagnosticEvidence { severity: e.severity, category: e.category, detail: e.detail.clone() }
}

fn push_ev(v: &mut Vec<EcoDiagnosticEvidence>, e: EcoDiagnosticEvidence)
    ensures
        evs(final(v)@) == evs(old(v)@).push(e@),
{
    proof {
        lemma_evs_push(old(v)@, e);
    }
    v.push(e);
}

fn push_str(v: &mut Vec<String>, lit: &str)
    ensures
        strs(final(v)@) == strs(old(v)@).push(lit@),
{
    let t = lit.to_owned();
    proof {
        lemma_strs_push(old(v)@, t);
    }
    v.push(t);
}

fn holder_category_of(k: NvidiaHolderKind) -> (c: EcoLiveBlocker)
    ensures
        c == holder_category(k),
{
    match k {
        NvidiaHolderKind::Device => EcoLiveBlocker::NvidiaDeviceUser,
        NvidiaHolderKind::Drm => EcoLiveBlocker::NvidiaDrmUser,
        NvidiaHolderKind::I2c => EcoLiveBlocker::NvidiaI2cUser,
        NvidiaHolderKind::MappedLibrary => EcoLiveBlocker::NvidiaMappedLibrary,
    }
}

fn holder_detail_text(h: &NvidiaHolderEvidence) -> (d: String)
    ensures
        d@ == holder_detail(*h),
{
    let mut d = to_decimal(h.count as u64);
    d.append(" holder(s): ");
    let l = debug_string_list(&h.details);
    d.append(l.as_str());
    d
}

/// The release and informational evidence of the holders, in holder order.
fn holder_buckets(holders: &Vec<NvidiaHolderEvidence>) -> (r: (
    Vec<EcoDiagnosticEvidence>,
    Vec<EcoDiagnosticEvidence>,
))
    ensures
        evs(r.0@) == released_holders(holders@),
        evs(r.1@) == observed_holders(holders@),
{
    let mut release: Vec<EcoDiagnosticEvidence> = Vec::new();
    let mut informational: Vec<EcoDiagnosticEvidence> = Vec::new();
    let mut i: usize = 0;
    assert(holders@.take(0) =~= Seq::<NvidiaHolderEvidence>::empty());
    assert(evs(release@) =~= Seq::<EvidenceView>::empty());
    assert(evs(informational@) =~= Seq::<EvidenceView>::empty());
    while i < holders.len()
        invariant
            0 <= i <= holders@.len(),
            evs(release@) == released_holders(holders@.take(i as int)),
            evs(informational@) == observed_holders(holders@.take(i as int)),
        decreases holders@.len() - i,
    {
        let holder = &holders[i];
        proof {
            lemma_holders_take_succ(holders@, i as int);
        }
        if holder.count != 0 {
            let category = holder_category_of(holder.kind);
            let detail = holder_detail_text(holder);
            match holder.kind {
                NvidiaHolderKind::MappedLibrary => {
                    let ghost before = evs(informational@);
                    push_ev(
                        &mut informational,
                        evidence(EcoEvidenceSeverity::Informational, category, detail),
                    );
                    assert(before + seq![holder_evidence(*holder)] =~= before.push(
                        holder_evidence(*holder),
                    ));
                    assert(evs(release@) + Seq::<EvidenceView>::empty() =~= evs(release@));
                },
                _ => {
                    let ghost before = evs(release@);
                    push_ev(
                        &mut release,
                        evidence(EcoEvidenceSeverity::ReleaseRequired, category, detail),
                    );
                    assert(before + seq![holder_evidence(*holder)] =~= before.push(
                        holder_evidence(*holder),
                    ));
                    assert(evs(informational@) + Seq::<EvidenceView>::empty() =~= evs(
                        informational@,
                    ));
                },
            }
        } else {
            assert(evs(release@) + Seq::<EvidenceView>::empty() =~= evs(release@));
            assert(evs(informational@) + Seq::<EvidenceView>::empty() =~= evs(informational@));
        }
        i = i + 1;
    }
    assert(holders@.take(holders@.len() as int) =~= holders@);
    (release, informational)
}

fn has_category(v: &Vec<EcoDiagnosticEvidence>, c: EcoLiveBlocker) -> (b: bool)
    ensures
        b == has_cat(evs(v@), c),
{
    let mut i: usize = 0;
    while i < v.len()
        invariant
            0 <= i <= v@.len(),
            forall|k: int| 0 <= k < i ==> v@[k].category != c,
        decreases v@.len() - i,
    {
        if v[i].category == c {
            assert(evs(v@)[i as int].category == c);
            return true;
        }
        i = i + 1;
    }
    assert forall|k: int| 0 <= k < evs(v@).len() implies evs(v@)[k].category != c by {
        assert(evs(v@)[k] == v@[k]@);
    }
    false
}

fn detail_list(v: &Vec<EcoDiagnosticEvidence>) -> (r: Vec<String>)
    ensures
        strs(r@) == details(evs(v@)),
{
    let mut r: Vec<String> = Vec::new();
    let mut i: usize = 0;
    while i < v.len()
        invariant
            0 <= i <= v@.len(),
            strs(r@) == details(evs(v@.take(i as int))),
        decreases v@.len() - i,
    {
        let d = v[i].detail.clone();
        proof {
            lemma_strs_push(r@, d);
        }
        r.push(d);
        assert(details(evs(v@.take(i + 1))) =~= details(evs(v@.take(i as int))).push(v@[i as int].detail@));
        i = i + 1;
    }
    assert(v@.take(v@.len() as int) =~= v@);
    r
}

fn inconsistencies(s: &EcoLivePreflightSnapshot) -> (r: Vec<String>)
    ensures
        strs(r@) == eco_inconsistencies(*s),
{
    let mut r = clone_strings(&s.unknown);
    let ghost base = strs(s.unknown@);
    let incomplete = s.dgpu_disabled.is_none() || s.mux.is_none() || s.access.is_none();
    if incomplete {
        push_str(&mut r, "Armoury primitive read is incomplete");
    }
    proof {
        lemma_when(base, incomplete, "Armoury primitive read is incomplete"@);
    }
    let ghost mid = strs(r@);
    match &s.supergfxd {
        Some(g) => {
            let unknown_wire_state = matches!(g.current_mode, SupergfxdMode::Unknown(_))
                || matches!(g.pending_mode, SupergfxdMode::Unknown(_)) || matches!(
                g.pending_user_action,
                SupergfxdUserAction::Unknown(_)
            );
            if unknown_wire_state {
                push_str(&mut r, "unknown supergfxd wire state");
            }
            proof {
                lemma_when(mid, unknown_wire_state, "unknown supergfxd wire state"@);
            }
            let ghost mid2 = strs(r@);
            let contradicts = (g.current_mode == SupergfxdMode::Integrated && matches!(
                s.dgpu_disabled,
                Some(false)
            )) || (g.current_mode == SupergfxdMode::Hybrid && matches!(s.dgpu_disabled, Some(true)));
            if contradicts {
                push_str(&mut r, "supergfxd mode contradicts dgpu_disable");
            }
            proof {
                lemma_when(mid2, contradicts, "supergfxd mode contradicts dgpu_disable"@);
                assert(mid + (when(unknown_wire(*g), "unknown supergfxd wire state"@) + when(
                    mode_contradicts(*s, *g),
                    "supergfxd mode contradicts dgpu_disable"@,
                )) =~= mid + when(unknown_wire(*g), "unknown supergfxd wire state"@) + when(
                    mode_contradicts(*s, *g),
                    "supergfxd mode contradicts dgpu_disable"@,
                ));
            }
        },
        None => {
            push_str(&mut r, "supergfxd snapshot unavailable");
            assert(mid + seq!["supergfxd snapshot unavailable"@] =~= mid.push(
                "supergfxd snapshot unavailable"@,
            ));
        },
    }
    r
}

fn pending_detail_text(g: &SupergfxdSnapshot) -> (d: String)
    ensures
        d@ == pending_detail(*g),
{
    let mut d = "supergfxd pending=".to_owned();
    let m = g.pending_mode.debug_text();
    d.append(m.as_str());
    d.append(" action=");
    let a = g.pending_user_action.debug_text();
    d.append(a.as_str());
    d
}

fn access_detail_text(s: &EcoLivePreflightSnapshot) -> (d: String)
    ensures
        d@ == access_detail(*s),
{
    let mut d = "access=".to_owned();
    let a = opt_access_to_debug(s.access);
    d.append(a.as_str());
    d.append(" nvidia_pci_present=");
    d.append(bool_to_text(s.nvidia_pci_present));
    d
}

fn module_detail_text(s: &EcoLivePreflightSnapshot) -> (d: String)
    ensures
        d@ == module_detail(*s),
{
    let mut d = "loaded=".to_owned();
    d.append(bool_to_text(s.nvidia_modules_loaded));
    d.append(" refcount=");
    let r = opt_u64_to_debug(s.nvidia_module_refcount);
    d.append(r.as_str());
    d.append(" busy=");
    let b = opt_bool_to_debug(s.nvidia_module_busy);
    d.append(b.as_str());
    d
}

fn hard_blockers(s: &EcoLivePreflightSnapshot) -> (r: Vec<EcoDiagnosticEvidence>)
    ensures
        evs(r@) == eco_hard(*s),
{
    let mut r: Vec<EcoDiagnosticEvidence> = Vec::new();
    if let Some(g) = &s.supergfxd {
        if g.pending_mode != SupergfxdMode::NoMode || g.pending_user_action
            != SupergfxdUserAction::Nothing {
            let d = pending_detail_text(g);
            push_ev(
                &mut r,
                evidence(EcoEvidenceSeverity::HardBlocker, EcoLiveBlocker::PendingGpuMutation, d),
            );
        }
    }
    assert(evs(r@) =~= pending_blocker(*s));
    let ghost a = evs(r@);
    let discrete = matches!(s.mux, Some(GpuMuxState::Discrete));
    if discrete {
        push_ev(
            &mut r,
            evidence(
                EcoEvidenceSeverity::HardBlocker,
                EcoLiveBlocker::MuxDiscrete,
                "MUX is routed to the dGPU".to_owned(),
            ),
        );
    }
    proof {
        lemma_when(
            a,
            discrete,
            ev(EcoEvidenceSeverity::HardBlocker, EcoLiveBlocker::MuxDiscrete, "MUX is routed to the dGPU"@),
        );
    }
    let ghost b = evs(r@);
    if !s.integrated_drm_present {
        push_ev(
            &mut r,
            evidence(
                EcoEvidenceSeverity::HardBlocker,
                EcoLiveBlocker::MissingIntegratedDrm,
                "no non-NVIDIA DRM device detected".to_owned(),
            ),
        );
    }
    proof {
        lemma_when(
            b,
            !s.integrated_drm_present,
            ev(
                EcoEvidenceSeverity::HardBlocker,
                EcoLiveBlocker::MissingIntegratedDrm,
                "no non-NVIDIA DRM device detected"@,
            ),
        );
    }
    let ghost c = evs(r@);
    let conflict = !matches!(s.access, Some(GpuAccessPolicy::Unblocked)) || !s.nvidia_pci_present;
    if conflict {
        let d = access_detail_text(s);
        push_ev(
            &mut r,
            evidence(EcoEvidenceSeverity::HardBlocker, EcoLiveBlocker::BackendStateConflict, d),
        );
    }
    proof {
        lemma_when(
            c,
            conflict,
            ev(EcoEvidenceSeverity::HardBlocker, EcoLiveBlocker::BackendStateConflict, access_detail(*s)),
        );
    }
    r
}

fn push_req(v: &mut Vec<EcoReleaseRequirement>, b: bool, r: EcoReleaseRequirement)
    ensures
        final(v)@ == old(v)@ + when(b, r),
{
    proof {
        lemma_when(old(v)@, b, r);
    }
    if b {
        v.push(r);
    }
}

fn requirements(
    release: &Vec<EcoDiagnosticEvidence>,
    unknown: &Vec<EcoDiagnosticEvidence>,
) -> (r: Vec<EcoReleaseRequirement>)
    ensures
        r@ == eco_requirements(evs(release@), evs(unknown@)),
{
    let mut r: Vec<EcoReleaseRequirement> = Vec::new();
    let device = has_category(release, EcoLiveBlocker::NvidiaDeviceUser);
    push_req(&mut r, device, EcoReleaseRequirement::ReleaseApplicationGpuUsers);
    let drm = has_category(release, EcoLiveBlocker::NvidiaDrmUser);
    push_req(&mut r, drm, EcoReleaseRequirement::ReleaseSecondaryDrmDevice);
    let modules = has_category(release, EcoLiveBlocker::NvidiaModulesLoaded);
    push_req(&mut r, modules, EcoReleaseRequirement::UnloadNvidiaModules);
    let ghost a = r@;
    if release.len() > 0 {
        r.push(EcoReleaseRequirement::VerifyNvidiaUsers);
        r.push(EcoReleaseRequirement::VerifyNvidiaModuleUnload);
        assert(r@ =~= a + seq![
            EcoReleaseRequirement::VerifyNvidiaUsers,
            EcoReleaseRequirement::VerifyNvidiaModuleUnload,
        ]);
    } else {
        assert(r@ =~= a + Seq::<EcoReleaseRequirement>::empty());
    }
    push_req(&mut r, unknown.len() > 0, EcoReleaseRequirement::VerifyCompositorRelease);
    r
}

fn unsupported(reason: &str) -> (a: EcoLiveAssessment)
    ensures
        a@ == (AssessmentView {
            hard_blockers: seq![],
            release_required: seq![],
            informational: seq![],
            unknown: seq![],
            plan: PlanView::Unsupported(seq![reason@]),
        }),
{
    let a = EcoLiveAssessment {
        hard_blockers: Vec::new(),
        release_required: Vec::new(),
        informational: Vec::new(),
        unknown: Vec::new(),
        plan: EcoTransitionPlan::Unsupported(one_string(reason)),
    };
    assert(a@.hard_blockers =~= Seq::<EvidenceView>::empty());
    assert(a@.release_required =~= Seq::<EvidenceView>::empty());
    assert(a@.informational =~= Seq::<EvidenceView>::empty());
    assert(a@.unknown =~= Seq::<EvidenceView>::empty());
    a
}

fn dgpu_values_supported(s: &EcoLivePreflightSnapshot) -> (b: bool)
    ensures
        b == dgpu_values_ok(*s),
{
    match &s.dgpu_disable_values {
        Some(v) => {
            let b = v.len() == 2 && v[0] == 0 && v[1] == 1;
            assert(b ==> v@ =~= seq![0u32, 1u32]);
            b
        },
        None => false,
    }
}

/// The release, informational and unknown buckets of a snapshot.
fn evidence_buckets(snapshot: &EcoLivePreflightSnapshot) -> (r: (
    Vec<EcoDiagnosticEvidence>,
    Vec<EcoDiagnosticEvidence>,
    Vec<EcoDiagnosticEvidence>,
))
    ensures
        evs(r.0@) == eco_release(*snapshot),
        evs(r.1@) == eco_info(*snapshot),
        evs(r.2@) == eco_unknown(*snapshot),
{
    let (mut release_required, mut informational) = holder_buckets(&snapshot.holders);
    let ghost info0 = evs(informational@);
    let module_observed = snapshot.nvidia_module_refcount.is_some() || snapshot.nvidia_modules_loaded;
    if module_observed {
        let d = module_detail_text(snapshot);
        push_ev(
            &mut informational,
            evidence(EcoEvidenceSeverity::Informational, EcoLiveBlocker::NvidiaModuleBusy, d),
        );
    }
    proof {
        lemma_when(
            info0,
            module_observed,
            ev(EcoEvidenceSeverity::Informational, EcoLiveBlocker::NvidiaModuleBusy, module_detail(*snapshot)),
        );
    }
    let ghost rel0 = evs(release_required@);
    if snapshot.nvidia_modules_loaded {
        push_ev(
            &mut release_required,
            evidence(
                EcoEvidenceSeverity::ReleaseRequired,
                EcoLiveBlocker::NvidiaModulesLoaded,
                "NVIDIA module stack is loaded; unload and verify before firmware transition".to_owned(),
            ),
        );
    }
    proof {
        lemma_when(
            rel0,
            snapshot.nvidia_modules_loaded,
            ev(
                EcoEvidenceSeverity::ReleaseRequired,
                EcoLiveBlocker::NvidiaModulesLoaded,
                "NVIDIA module stack is loaded; unload and verify before firmware transition"@,
            ),
        );
    }
    let mut unknown: Vec<EcoDiagnosticEvidence> = Vec::new();
    let unload_unresolved = snapshot.nvidia_modules_loaded && !matches!(
        snapshot.nvidia_module_unload_feasible,
        Some(true)
    );
    if unload_unresolved {
        let mut d = "NVIDIA module unload feasibility is unresolved: ".to_owned();
        let f = opt_bool_to_debug(snapshot.nvidia_module_unload_feasible);
        d.append(f.as_str());
        push_ev(&mut unknown, evidence(EcoEvidenceSeverity::Unknown, EcoLiveBlocker::Unknown, d));
    }
    let ghost unk0 = evs(unknown@);
    proof {
        assert(Seq::<EvidenceView>::empty() + when(
            unload_unresolved,
            ev(
                EcoEvidenceSeverity::Unknown,
                EcoLiveBlocker::Unknown,
                "NVIDIA module unload feasibility is unresolved: "@ + opt_bool_debug(
                    snapshot.nvidia_module_unload_feasible,
                ),
            ),
        ) =~= unk0);
    }
    let compositor_unresolved = !matches!(snapshot.compositor_release_supported, Some(true))
        && release_required.len() > 0;
    if compositor_unresolved {
        push_ev(
            &mut unknown,
            evidence(
                EcoEvidenceSeverity::Unknown,
                EcoLiveBlocker::Unknown,
                "supported live compositor DRM release is unresolved".to_owned(),
            ),
        );
    }
    proof {
        lemma_when(
            unk0,
            compositor_unresolved,
            ev(
                EcoEvidenceSeverity::Unknown,
                EcoLiveBlocker::Unknown,
                "supported live compositor DRM release is unresolved"@,
            ),
        );
        assert(evs(unknown@) =~= eco_unknown(*snapshot));
    }
    (release_required, informational, unknown)
}

/// Purely classify evidence and derive a transition plan.
pub fn plan_native_asus_eco(snapshot: &EcoLivePreflightSnapshot) -> (a: EcoLiveAssessment)
    ensures
        a@ == eco_assessment(*snapshot),
{
    if !snapshot.armoury_supported {
        return unsupported("ASUS Armoury dgpu_disable/gpu_mux_mode ABI");
    }
    if !dgpu_values_supported(snapshot) {
        return unsupported("dgpu_disable enumeration 0;1");
    }
    let inconsistent = inconsistencies(snapshot);
    let hard_blockers = hard_blockers(snapshot);
    let (release_required, informational, unknown) = evidence_buckets(snapshot);
    if inconsistent.len() > 0 {
        return EcoLiveAssessment {
            hard_blockers,
            release_required,
            informational,
            unknown,
            plan: EcoTransitionPlan::Inconsistent(inconsistent),
        };
    }
    let requirements = requirements(&release_required, &unknown);
    let plan = if has_category(&hard_blockers, EcoLiveBlocker::MuxDiscrete) {
        EcoTransitionPlan::RequiresReboot("MUX is routed to the dGPU".to_owned())
    } else if has_category(&hard_blockers, EcoLiveBlocker::MissingIntegratedDrm) {
        EcoTransitionPlan::Unsupported(one_string("no non-NVIDIA DRM device detected"))
    } else if hard_blockers.len() > 0 {
        EcoTransitionPlan::CanBecomeReady {
            release_requirements: requirements,
            unresolved: detail_list(&hard_blockers),
        }
    } else if release_required.len() == 0 && unknown.len() == 0 {
        EcoTransitionPlan::ReadyImmediately
    } else {
        EcoTransitionPlan::CanBecomeReady {
            release_requirements: requirements,
            unresolved: detail_list(&unknown),
        }
    };
    EcoLiveAssessment { hard_blockers, release_required, informational, unknown, plan }
}

/// `first_occurrences` is empty only for the empty sequence.
proof fn lemma_first_occurrences_empty<T>(s: Seq<T>)
    ensures
        (first_occurrences(s).len() == 0) == (s.len() == 0),
{
    if s.len() > 0 {
        let acc = first_occurrences(s.drop_last());
        if acc.contains(s.last()) {
            assert(acc.len() > 0);
        }
    }
}

fn push_unique(items: &mut Vec<EcoLiveBlocker>, item: EcoLiveBlocker)
    ensures
        final(items)@ == push_unique_spec(old(items)@, item),
{
    let mut i: usize = 0;
    while i < items.len()
        invariant
            0 <= i <= items@.len(),
            items@ == old(items)@,
            forall|k: int| 0 <= k < i ==> items@[k] != item,
        decreases items@.len() - i,
    {
        if items[i] == item {
            assert(items@.contains(item));
            return;
        }
        i = i + 1;
    }
    assert(!items@.contains(item));
    items.push(item);
}

fn collect_blocking(
    src: &Vec<EcoDiagnosticEvidence>,
    reasons: &mut Vec<EcoLiveBlocker>,
    evidence: &mut Vec<EcoDiagnosticEvidence>,
    Ghost(prefix): Ghost<Seq<EvidenceView>>,
)
    requires
        old(reasons)@ == first_occurrences(categories(prefix)),
        evs(old(evidence)@) == prefix,
    ensures
        final(reasons)@ == first_occurrences(categories(prefix + evs(src@))),
        evs(final(evidence)@) == prefix + evs(src@),
{
    let ghost all = prefix + evs(src@);
    let mut i: usize = 0;
    assert(all.take(prefix.len() as int) =~= prefix);
    while i < src.len()
        invariant
            all == prefix + evs(src@),
            0 <= i <= src@.len(),
            reasons@ == first_occurrences(categories(all.take(prefix.len() + i))),
            evs(evidence@) == all.take(prefix.len() + i),
        decreases src@.len() - i,
    {
        let ghost k = prefix.len() + i;
        assert(src@[i as int]@ == all[k]);
        push_unique(reasons, src[i].category);
        push_ev(evidence, clone_evidence(&src[i]));
        assert(categories(all.take(k + 1)).drop_last() =~= categories(all.take(k)));
        assert(all.take(k + 1) =~= all.take(k).push(all[k]));
        i = i + 1;
    }
    assert(all.take((prefix.len() + src@.len()) as int) =~= all);
}

fn append_evidence(dst: &mut Vec<EcoDiagnosticEvidence>, src: &Vec<EcoDiagnosticEvidence>)
    ensures
        evs(final(dst)@) == evs(old(dst)@) + evs(src@),
{
    let mut j: usize = 0;
    let ghost d0 = evs(dst@);
    while j < src.len()
        invariant
            0 <= j <= src@.len(),
            evs(dst@) == d0 + evs(src@).take(j as int),
        decreases src@.len() - j,
    {
        push_ev(dst, clone_evidence(&src[j]));
        assert(evs(src@).take(j + 1) =~= evs(src@).take(j as int).push(src@[j as int]@));
        assert(d0 + evs(src@).take(j + 1) =~= (d0 + evs(src@).take(j as int)).push(src@[j as int]@));
        j = j + 1;
    }
    assert(evs(src@).take(src@.len() as int) =~= evs(src@));
}

/// The readiness verdict of an assessment.
fn readiness_of_assessment(assessment: &EcoLiveAssessment) -> (r: EcoLiveReadiness)
    ensures
        r@ == readiness_of(assessment@),
{
    match &assessment.plan {
        EcoTransitionPlan::Unsupported(reasons) => {
            return EcoLiveReadiness::Unsupported(clone_strings(reasons));
        },
        EcoTransitionPlan::Inconsistent(reasons) => {
            return EcoLiveReadiness::Inconsistent(clone_strings(reasons));
        },
        _ => {},
    }
    let mut reasons: Vec<EcoLiveBlocker> = Vec::new();
    let mut evidence: Vec<EcoDiagnosticEvidence> = Vec::new();
    assert(categories(Seq::<EvidenceView>::empty()) =~= Seq::<EcoLiveBlocker>::empty());
    assert(evs(evidence@) =~= Seq::<EvidenceView>::empty());
    collect_blocking(&assessment.hard_blockers, &mut reasons, &mut evidence, Ghost(Seq::empty()));
    assert(Seq::<EvidenceView>::empty() + evs(assessment.hard_blockers@) =~= evs(
        assessment.hard_blockers@,
    ));
    collect_blocking(
        &assessment.release_required,
        &mut reasons,
        &mut evidence,
        Ghost(evs(assessment.hard_blockers@)),
    );
    let ghost blocking = evs(assessment.hard_blockers@) + evs(assessment.release_required@);
    proof {
        lemma_first_occurrences_empty(categories(blocking));
    }
    if reasons.len() == 0 && assessment.unknown.len() == 0 {
        EcoLiveReadiness::Ready
    } else {
        append_evidence(&mut evidence, &assessment.unknown);
        EcoLiveReadiness::Blocked { reasons, evidence }
    }
}

/// Pure, conservative classification of a read-only snapshot.
pub fn classify_native_asus_eco(snapshot: &EcoLivePreflightSnapshot) -> (r: EcoLiveReadiness)
    ensures
        r@ == readiness_of(eco_assessment(*snapshot)),
{
    let assessment = plan_native_asus_eco(snapshot);
    readiness_of_assessment(&assessment)
}

// ---------------------------------------------------------------------------
// Laws of the planner
// ---------------------------------------------------------------------------

/// The readiness verdict is `Ready` exactly when the plan is
/// `ReadyImmediately`.
pub proof fn lemma_ready_iff_ready_immediately(s: EcoLivePreflightSnapshot)
    ensures
        (readiness_of(eco_assessment(s)) is Ready) == (eco_assessment(s).plan is ReadyImmediately),
{
    let a = eco_assessment(s);
    if a.plan is ReadyImmediately {
        assert((a.hard_blockers + a.release_required).len() == 0);
    }
    if readiness_of(a) is Ready && capability_ok(s) && eco_inconsistencies(s).len() == 0 {
        assert(a.hard_blockers.len() == 0);
        assert(!has_cat(a.hard_blockers, EcoLiveBlocker::MuxDiscrete));
        assert(!has_cat(a.hard_blockers, EcoLiveBlocker::MissingIntegratedDrm));
    }
}

/// The planner never asks for a logout.
pub proof fn lemma_never_requires_logout(s: EcoLivePreflightSnapshot)
    ensures
        !(eco_assessment(s).plan is RequiresLogout),
{
}

/// Contradictory evidence, once the firmware capability is present, makes
/// the verdict inconsistent with exactly the contradictions found.
pub proof fn lemma_contradictions_are_inconsistent(s: EcoLivePreflightSnapshot)
    requires
        capability_ok(s),
        eco_inconsistencies(s).len() > 0,
    ensures
        readiness_of(eco_assessment(s)) == ReadinessView::Inconsistent(eco_inconsistencies(s)),
{
}

/// A MUX routed to the dGPU needs a reboot and blocks the transition.
pub proof fn lemma_mux_discrete_requires_reboot(s: EcoLivePreflightSnapshot)
    requires
        capability_ok(s),
        eco_inconsistencies(s).len() == 0,
        s.mux == Some(GpuMuxState::Discrete),
    ensures
        eco_assessment(s).plan == PlanView::RequiresReboot("MUX is routed to the dGPU"@),
        readiness_of(eco_assessment(s)) matches ReadinessView::Blocked { reasons, .. }
            && reasons.contains(EcoLiveBlocker::MuxDiscrete),
{
    let hard = eco_hard(s);
    let k = pending_blocker(s).len() as int;
    assert(hard[k].category == EcoLiveBlocker::MuxDiscrete);
    assert(has_cat(hard, EcoLiveBlocker::MuxDiscrete));
    let cats = categories(hard + eco_release(s));
    lemma_first_occurrences_contains(cats);
    assert(cats[k] == EcoLiveBlocker::MuxDiscrete);
    assert(cats.contains(EcoLiveBlocker::MuxDiscrete));
}

/// Without an integrated DRM device (and with the MUX not on the dGPU) the
/// transition is unsupported.
pub proof fn lemma_missing_integrated_drm_unsupported(s: EcoLivePreflightSnapshot)
    requires
        capability_ok(s),
        eco_inconsistencies(s).len() == 0,
        s.mux != Some(GpuMuxState::Discrete),
        !s.integrated_drm_present,
    ensures
        eco_assessment(s).plan == PlanView::Unsupported(seq!["no non-NVIDIA DRM device detected"@]),
        readiness_of(eco_assessment(s)) == ReadinessView::Unsupported(
            seq!["no non-NVIDIA DRM device detected"@],
        ),
{
    let hard = eco_hard(s);
    let k = pending_blocker(s).len() as int;
    assert(hard[k].category == EcoLiveBlocker::MissingIntegratedDrm);
    assert forall|i: int| 0 <= i < hard.len() implies hard[i].category
        != EcoLiveBlocker::MuxDiscrete by {
        if i < k {
            assert(hard[i] == pending_blocker(s)[i]);
        }
    }
}

/// A pending supergfxd mutation blocks the transition.
pub proof fn lemma_pending_mutation_blocks(s: EcoLivePreflightSnapshot)
    requires
        capability_ok(s),
        eco_inconsistencies(s).len() == 0,
        s.supergfxd matches Some(g) && pending_mutation(g),
    ensures
        eco_assessment(s).plan !is ReadyImmediately,
        readiness_of(eco_assessment(s)) is Blocked || readiness_of(eco_assessment(s)) is Unsupported,
        readiness_of(eco_assessment(s)) matches ReadinessView::Blocked { reasons, .. }
            ==> reasons.contains(EcoLiveBlocker::PendingGpuMutation),
{
    let hard = eco_hard(s);
    assert(hard[0].category == EcoLiveBlocker::PendingGpuMutation);
    let cats = categories(hard + eco_release(s));
    lemma_first_occurrences_contains(cats);
    assert(cats[0] == EcoLiveBlocker::PendingGpuMutation);
    assert(cats.contains(EcoLiveBlocker::PendingGpuMutation));
}

/// `first_occurrences` keeps exactly the elements of its input.
proof fn lemma_first_occurrences_contains<T>(s: Seq<T>)
    ensures
        forall|x: T| first_occurrences(s).contains(x) <==> s.contains(x),
        first_occurrences(s).no_duplicates(),
    decreases s.len(),
{
    if s.len() > 0 {
        lemma_first_occurrences_contains(s.drop_last());
        let acc = first_occurrences(s.drop_last());
        assert forall|x: T| first_occurrences(s).contains(x) <==> s.contains(x) by {
            if s.contains(x) && !s.drop_last().contains(x) {
                let i = choose|i: int| 0 <= i < s.len() && s[i] == x;
                if i < s.len() - 1 {
                    assert(s.drop_last()[i] == x);
                }
            }
            if s.drop_last().contains(x) {
                let i = choose|i: int| 0 <= i < s.drop_last().len() && s.drop_last()[i] == x;
                assert(s[i] == x);
            }
            if !acc.contains(s.last()) && acc.push(s.last()).contains(x) && x != s.last() {
                let i = choose|i: int| 0 <= i < acc.push(s.last()).len() && acc.push(s.last())[i] == x;
                assert(acc[i] == x);
            }
            if acc.contains(x) && !acc.contains(s.last()) {
                let i = choose|i: int| 0 <= i < acc.len() && acc[i] == x;
                assert(acc.push(s.last())[i] == x);
            }
            if x == s.last() && !acc.contains(s.last()) {
                assert(acc.push(s.last())[acc.len() as int] == x);
            }
        }
        if !acc.contains(s.last()) {
            assert forall|i: int, j: int|
                0 <= i < acc.len() + 1 && 0 <= j < acc.len() + 1 && i != j implies acc.push(
                s.last(),
            )[i] != acc.push(s.last())[j] by {
                if i == acc.len() {
                    assert(acc[j] == acc.push(s.last())[j]);
                }
                if j == acc.len() {
                    assert(acc[i] == acc.push(s.last())[i]);
                }
            }
        }
    }
}

/// The reasons of a blocked verdict are distinct and are exactly the
/// categories of the hard-blocker and release evidence.
pub proof fn lemma_blocked_reasons(a: AssessmentView)
    requires
        readiness_of(a) is Blocked,
    ensures
        readiness_of(a) matches ReadinessView::Blocked { reasons, .. } && reasons.no_duplicates()
            && forall|c: EcoLiveBlocker|
            reasons.contains(c) <==> has_cat(a.hard_blockers + a.release_required, c),
{
    let b = a.hard_blockers + a.release_required;
    lemma_first_occurrences_contains(categories(b));
    assert forall|c: EcoLiveBlocker| categories(b).contains(c) <==> has_cat(b, c) by {
        if has_cat(b, c) {
            let i = choose|i: int| 0 <= i < b.len() && b[i].category == c;
            assert(categories(b)[i] == c);
        }
        if categories(b).contains(c) {
            let i = choose|i: int| 0 <= i < categories(b).len() && categories(b)[i] == c;
            assert(b[i].category == c);
        }
    }
}

proof fn lemma_contains_concat<T>(a: Seq<T>, b: Seq<T>, x: T)
    ensures
        (a + b).contains(x) <==> a.contains(x) || b.contains(x),
{
    if (a + b).contains(x) {
        let i = choose|i: int| 0 <= i < (a + b).len() && (a + b)[i] == x;
        if i < a.len() {
            assert(a[i] == x);
        } else {
            assert(b[i - a.len()] == x);
        }
    }
    if a.contains(x) {
        let i = choose|i: int| 0 <= i < a.len() && a[i] == x;
        assert((a + b)[i] == x);
    }
    if b.contains(x) {
        let i = choose|i: int| 0 <= i < b.len() && b[i] == x;
        assert((a + b)[a.len() + i] == x);
    }
}

proof fn lemma_has_cat_concat(a: Seq<EvidenceView>, b: Seq<EvidenceView>, c: EcoLiveBlocker)
    ensures
        has_cat(a + b, c) <==> has_cat(a, c) || has_cat(b, c),
{
    if has_cat(a + b, c) {
        let i = choose|i: int| 0 <= i < (a + b).len() && #[trigger] (a + b)[i].category == c;
        if i < a.len() {
            assert(a[i].category == c);
        } else {
            assert(b[i - a.len()].category == c);
        }
    }
    if has_cat(a, c) {
        let i = choose|i: int| 0 <= i < a.len() && #[trigger] a[i].category == c;
        assert((a + b)[i].category == c);
    }
    if has_cat(b, c) {
        let i = choose|i: int| 0 <= i < b.len() && #[trigger] b[i].category == c;
        assert((a + b)[a.len() + i].category == c);
    }
}

/// Which release operations a plan asks for follows from which release
/// evidence there is: application users for device users, the secondary
/// DRM device for DRM users, the module unload for a loaded module stack.
proof fn lemma_requirement_kinds(rel: Seq<EvidenceView>, unk: Seq<EvidenceView>)
    ensures
        eco_requirements(rel, unk).contains(EcoReleaseRequirement::ReleaseApplicationGpuUsers) <==> has_cat(
            rel,
            EcoLiveBlocker::NvidiaDeviceUser,
        ),
        eco_requirements(rel, unk).contains(EcoReleaseRequirement::ReleaseSecondaryDrmDevice) <==> has_cat(
            rel,
            EcoLiveBlocker::NvidiaDrmUser,
        ),
        eco_requirements(rel, unk).contains(EcoReleaseRequirement::UnloadNvidiaModules) <==> has_cat(
            rel,
            EcoLiveBlocker::NvidiaModulesLoaded,
        ),
{
    let p1 = when(has_cat(rel, EcoLiveBlocker::NvidiaDeviceUser), EcoReleaseRequirement::ReleaseApplicationGpuUsers);
    let p2 = when(has_cat(rel, EcoLiveBlocker::NvidiaDrmUser), EcoReleaseRequirement::ReleaseSecondaryDrmDevice);
    let p3 = when(has_cat(rel, EcoLiveBlocker::NvidiaModulesLoaded), EcoReleaseRequirement::UnloadNvidiaModules);
    let p4 = if rel.len() > 0 {
        seq![EcoReleaseRequirement::VerifyNvidiaUsers, EcoReleaseRequirement::VerifyNvidiaModuleUnload]
    } else {
        Seq::<EcoReleaseRequirement>::empty()
    };
    let p5 = when(unk.len() > 0, EcoReleaseRequirement::VerifyCompositorRelease);
    assert(eco_requirements(rel, unk) == p1 + p2 + p3 + p4 + p5);
    let xs = seq![
        EcoReleaseRequirement::ReleaseApplicationGpuUsers,
        EcoReleaseRequirement::ReleaseSecondaryDrmDevice,
        EcoReleaseRequirement::UnloadNvidiaModules,
    ];
    assert forall|k: int| 0 <= k < 3 implies {
        let x = #[trigger] xs[k];
        &&& (p1 + p2 + p3 + p4 + p5).contains(x) <==> p1.contains(x) || p2.contains(x) || p3.contains(x)
            || p4.contains(x) || p5.contains(x)
        &&& !p4.contains(x)
        &&& !p5.contains(x)
    } by {
        let x = xs[k];
        lemma_contains_concat(p1 + p2 + p3 + p4, p5, x);
        lemma_contains_concat(p1 + p2 + p3, p4, x);
        lemma_contains_concat(p1 + p2, p3, x);
        lemma_contains_concat(p1, p2, x);
        if p4.contains(x) {
            let i = choose|i: int| 0 <= i < p4.len() && p4[i] == x;
        }
        if p5.contains(x) {
            let i = choose|i: int| 0 <= i < p5.len() && p5[i] == x;
        }
    }
    let x0 = xs[0];
    let x1 = xs[1];
    let x2 = xs[2];
    if p1.contains(x1) || p3.contains(x1) || p1.contains(x2) || p2.contains(x2) || p2.contains(x0) || p3.contains(x0) {
        assert(false) by {
            if p1.contains(x1) {
                let i = choose|i: int| 0 <= i < p1.len() && p1[i] == x1;
            }
            if p3.contains(x1) {
                let i = choose|i: int| 0 <= i < p3.len() && p3[i] == x1;
            }
            if p1.contains(x2) {
                let i = choose|i: int| 0 <= i < p1.len() && p1[i] == x2;
            }
            if p2.contains(x2) {
                let i = choose|i: int| 0 <= i < p2.len() && p2[i] == x2;
            }
            if p2.contains(x0) {
                let i = choose|i: int| 0 <= i < p2.len() && p2[i] == x0;
            }
            if p3.contains(x0) {
                let i = choose|i: int| 0 <= i < p3.len() && p3[i] == x0;
            }
        }
    }
    if has_cat(rel, EcoLiveBlocker::NvidiaDeviceUser) {
        assert(p1[0] == x0);
    }
    if has_cat(rel, EcoLiveBlocker::NvidiaDrmUser) {
        assert(p2[0] == x1);
    }
    if has_cat(rel, EcoLiveBlocker::NvidiaModulesLoaded) {
        assert(p3[0] == x2);
    }
}

/// The holders' release evidence has a device-user (or DRM-user) entry
/// exactly when some holder of that kind has users.
proof fn lemma_released_holders_have_kind(hs: Seq<NvidiaHolderEvidence>, k: NvidiaHolderKind)
    requires
        k != NvidiaHolderKind::MappedLibrary,
    ensures
        has_cat(released_holders(hs), holder_category(k)) <==> exists|i: int|
            0 <= i < hs.len() && (#[trigger] hs[i]).kind == k && hs[i].count > 0,
{
    let f = |h: NvidiaHolderEvidence| released_holder(h);
    let hr = released_holders(hs);
    if exists|i: int| 0 <= i < hs.len() && (#[trigger] hs[i]).kind == k && hs[i].count > 0 {
        let i = choose|i: int| 0 <= i < hs.len() && (#[trigger] hs[i]).kind == k && hs[i].count > 0;
        lemma_released_holder_listed(hs, i);
        let j = choose|j: int| 0 <= j < hr.len() && hr[j] == holder_evidence(hs[i]);
        assert(hr[j].category == holder_category(k));
    }
    if has_cat(hr, holder_category(k)) {
        let j = choose|j: int| 0 <= j < hr.len() && #[trigger] hr[j].category == holder_category(k);
        let e = hr[j];
        assert(hs.filter_map(f).contains(e));
        hs.lemma_filter_map_contains(f, e);
        let t = choose|t: NvidiaHolderEvidence| #[trigger] hs.contains(t) && f(t) == Some(e);
        let i = choose|i: int| 0 <= i < hs.len() && hs[i] == t;
        assert(released_holder(t) == Some(e));
        assert(holder_category(t.kind) == holder_category(k));
        assert(hs[i].kind == k && hs[i].count > 0);
    }
}

/// A plan that can become ready asks to close the applications holding
/// `/dev/nvidia*` exactly when some device holder has users, to release the
/// secondary DRM device exactly when some DRM holder has users, and to
/// unload the NVIDIA modules exactly when the module stack is loaded.
pub proof fn lemma_release_requirements_follow_holders(s: EcoLivePreflightSnapshot)
    requires
        eco_assessment(s).plan is CanBecomeReady,
    ensures
        eco_assessment(s).plan matches PlanView::CanBecomeReady { release_requirements, .. } && {
            &&& release_requirements.contains(EcoReleaseRequirement::ReleaseApplicationGpuUsers) <==> exists|i: int|
                0 <= i < s.holders@.len() && (#[trigger] s.holders@[i]).kind == NvidiaHolderKind::Device
                    && s.holders@[i].count > 0
            &&& release_requirements.contains(EcoReleaseRequirement::ReleaseSecondaryDrmDevice) <==> exists|i: int|
                0 <= i < s.holders@.len() && (#[trigger] s.holders@[i]).kind == NvidiaHolderKind::Drm
                    && s.holders@[i].count > 0
            &&& release_requirements.contains(EcoReleaseRequirement::UnloadNvidiaModules) <==> s.nvidia_modules_loaded
        },
{
    assert(capability_ok(s));
    assert(eco_inconsistencies(s).len() == 0);
    let rel = eco_release(s);
    let hr = released_holders(s.holders@);
    let m = when(
        s.nvidia_modules_loaded,
        ev(
            EcoEvidenceSeverity::ReleaseRequired,
            EcoLiveBlocker::NvidiaModulesLoaded,
            "NVIDIA module stack is loaded; unload and verify before firmware transition"@,
        ),
    );
    assert(rel == hr + m);
    lemma_requirement_kinds(rel, eco_unknown(s));
    lemma_released_holders_kinds(s.holders@);
    lemma_released_holders_have_kind(s.holders@, NvidiaHolderKind::Device);
    lemma_released_holders_have_kind(s.holders@, NvidiaHolderKind::Drm);
    lemma_has_cat_concat(hr, m, EcoLiveBlocker::NvidiaDeviceUser);
    lemma_has_cat_concat(hr, m, EcoLiveBlocker::NvidiaDrmUser);
    lemma_has_cat_concat(hr, m, EcoLiveBlocker::NvidiaModulesLoaded);
    if has_cat(hr, EcoLiveBlocker::NvidiaModulesLoaded) {
        let j = choose|j: int| 0 <= j < hr.len() && #[trigger] hr[j].category == EcoLiveBlocker::NvidiaModulesLoaded;
        assert(false);
    }
    if has_cat(m, EcoLiveBlocker::NvidiaDeviceUser) || has_cat(m, EcoLiveBlocker::NvidiaDrmUser) {
        assert(false);
    }
    if s.nvidia_modules_loaded {
        assert(m[0].category == EcoLiveBlocker::NvidiaModulesLoaded);
    }
}

/// A holder with users that must be released contributes its evidence to the
/// release list of the holders.
pub proof fn lemma_released_holder_listed(hs: Seq<NvidiaHolderEvidence>, i: int)
    requires
        0 <= i < hs.len(),
        released_holder(hs[i]) is Some,
    ensures
        released_holders(hs).contains(holder_evidence(hs[i])),
    decreases hs.len(),
{
    let f = |h: NvidiaHolderEvidence| released_holder(h);
    let rest = hs.drop_last();
    if i < hs.len() - 1 {
        assert(rest[i] == hs[i]);
        lemma_released_holder_listed(rest, i);
        let j = choose|j: int| 0 <= j < rest.filter_map(f).len() && rest.filter_map(f)[j]
            == holder_evidence(hs[i]);
        match f(hs.last()) {
            Some(e) => {
                assert(hs.filter_map(f) == rest.filter_map(f) + seq![e]);
                assert(hs.filter_map(f)[j] == holder_evidence(hs[i]));
            },
            None => {},
        }
    } else {
        assert(hs.filter_map(f) == rest.filter_map(f) + seq![holder_evidence(hs[i])]);
        assert(hs.filter_map(f)[rest.filter_map(f).len() as int] == holder_evidence(hs[i]));
    }
}

/// Every piece of release evidence derived from the holders comes from a
/// device, DRM or I²C holder.
pub proof fn lemma_released_holders_kinds(hs: Seq<NvidiaHolderEvidence>)
    ensures
        forall|j: int|
            0 <= j < released_holders(hs).len() ==> {
                let e = #[trigger] released_holders(hs)[j];
                &&& e.severity == EcoEvidenceSeverity::ReleaseRequired
                &&& (e.category == EcoLiveBlocker::NvidiaDeviceUser || e.category
                    == EcoLiveBlocker::NvidiaDrmUser || e.category == EcoLiveBlocker::NvidiaI2cUser)
            },
{
    let f = |h: NvidiaHolderEvidence| released_holder(h);
    assert forall|j: int| 0 <= j < hs.filter_map(f).len() implies {
        let e = #[trigger] hs.filter_map(f)[j];
        &&& e.severity == EcoEvidenceSeverity::ReleaseRequired
        &&& (e.category == EcoLiveBlocker::NvidiaDeviceUser || e.category
            == EcoLiveBlocker::NvidiaDrmUser || e.category == EcoLiveBlocker::NvidiaI2cUser)
    } by {
        let e = hs.filter_map(f)[j];
        assert(hs.filter_map(f).contains(e));
        hs.lemma_filter_map_contains(f, e);
        let t = choose|t: NvidiaHolderEvidence| #[trigger] hs.contains(t) && f(t) == Some(e);
        assert(released_holder(t) == Some(e));
    }
}

/// Open device, DRM and I²C handles (and only they, together with a loaded
/// module stack) need release work; NVIDIA holders and module state never
/// become hard blockers, and library mappings are only informational.
pub proof fn lemma_bucket_categories(s: EcoLivePreflightSnapshot)
    ensures
        forall|i: int|
            0 <= i < eco_assessment(s).hard_blockers.len() ==> {
                let c = (#[trigger] eco_assessment(s).hard_blockers[i]).category;
                c == EcoLiveBlocker::PendingGpuMutation || c == EcoLiveBlocker::MuxDiscrete || c
                    == EcoLiveBlocker::MissingIntegratedDrm || c
                    == EcoLiveBlocker::BackendStateConflict
            },
        forall|i: int|
            0 <= i < eco_assessment(s).release_required.len() ==> {
                let c = (#[trigger] eco_assessment(s).release_required[i]).category;
                c == EcoLiveBlocker::NvidiaDeviceUser || c == EcoLiveBlocker::NvidiaDrmUser || c
                    == EcoLiveBlocker::NvidiaI2cUser || c == EcoLiveBlocker::NvidiaModulesLoaded
            },
{
    if capability_ok(s) {
        let hard = eco_hard(s);
        let p = pending_blocker(s);
        assert forall|i: int| 0 <= i < hard.len() implies {
            let c = (#[trigger] hard[i]).category;
            c == EcoLiveBlocker::PendingGpuMutation || c == EcoLiveBlocker::MuxDiscrete || c
                == EcoLiveBlocker::MissingIntegratedDrm || c == EcoLiveBlocker::BackendStateConflict
        } by {
            if i < p.len() {
                assert(hard[i] == p[i]);
            }
        }
        let f = |h: NvidiaHolderEvidence| released_holder(h);
        let hr = s.holders@.filter_map(f);
        lemma_released_holders_kinds(s.holders@);
        let rel = eco_release(s);
        assert forall|i: int| 0 <= i < rel.len() implies {
            let c = (#[trigger] rel[i]).category;
            c == EcoLiveBlocker::NvidiaDeviceUser || c == EcoLiveBlocker::NvidiaDrmUser || c
                == EcoLiveBlocker::NvidiaI2cUser || c == EcoLiveBlocker::NvidiaModulesLoaded
        } by {
            if i < hr.len() {
                assert(rel[i] == hr[i]);
            }
        }
    }
}

/// A holder with open NVIDIA device, DRM or I²C handles needs release work
/// and keeps the transition from being immediately ready.
pub proof fn lemma_gpu_users_require_release(s: EcoLivePreflightSnapshot, i: int)
    requires
        capability_ok(s),
        0 <= i < s.holders@.len(),
        s.holders@[i].count > 0,
        s.holders@[i].kind != NvidiaHolderKind::MappedLibrary,
    ensures
        has_cat(eco_assessment(s).release_required, holder_category(s.holders@[i].kind)),
        eco_assessment(s).plan !is ReadyImmediately,
        eco_inconsistencies(s).len() == 0 && eco_hard(s).len() == 0
            ==> eco_assessment(s).plan is CanBecomeReady,
{
    let f = |h: NvidiaHolderEvidence| released_holder(h);
    let hr = s.holders@.filter_map(f);
    lemma_released_holder_listed(s.holders@, i);
    let j = choose|j: int| 0 <= j < hr.len() && hr[j] == holder_evidence(s.holders@[i]);
    assert(eco_release(s)[j] == hr[j]);
    assert(eco_release(s)[j].category == holder_category(s.holders@[i].kind));
    if eco_inconsistencies(s).len() == 0 && eco_hard(s).len() == 0 {
        assert(!has_cat(eco_hard(s), EcoLiveBlocker::MuxDiscrete));
        assert(!has_cat(eco_hard(s), EcoLiveBlocker::MissingIntegratedDrm));
    }
}

/// A loaded NVIDIA module stack, even with a zero refcount, needs unloading
/// and keeps the transition from being immediately ready; when nothing else
/// blocks, the plan asks to unload the modules and verify users and unload.
pub proof fn lemma_loaded_modules_require_unload(s: EcoLivePreflightSnapshot)
    requires
        capability_ok(s),
        s.nvidia_modules_loaded,
    ensures
        has_cat(eco_assessment(s).release_required, EcoLiveBlocker::NvidiaModulesLoaded),
        eco_assessment(s).plan !is ReadyImmediately,
        eco_inconsistencies(s).len() == 0 && eco_hard(s).len() == 0 ==> (eco_assessment(
            s,
        ).plan matches PlanView::CanBecomeReady { release_requirements, .. } && {
            &&& release_requirements.contains(EcoReleaseRequirement::UnloadNvidiaModules)
            &&& release_requirements.contains(EcoReleaseRequirement::VerifyNvidiaUsers)
            &&& release_requirements.contains(EcoReleaseRequirement::VerifyNvidiaModuleUnload)
        }),
{
    let rel = eco_release(s);
    let hr = released_holders(s.holders@);
    assert(rel[hr.len() as int].category == EcoLiveBlocker::NvidiaModulesLoaded);
    assert(has_cat(rel, EcoLiveBlocker::NvidiaModulesLoaded));
    if eco_inconsistencies(s).len() == 0 && eco_hard(s).len() == 0 {
        assert(!has_cat(eco_hard(s), EcoLiveBlocker::MuxDiscrete));
        assert(!has_cat(eco_hard(s), EcoLiveBlocker::MissingIntegratedDrm));
        let reqs = eco_requirements(rel, eco_unknown(s));
        let a = when(
            has_cat(rel, EcoLiveBlocker::NvidiaDeviceUser),
            EcoReleaseRequirement::ReleaseApplicationGpuUsers,
        ) + when(
            has_cat(rel, EcoLiveBlocker::NvidiaDrmUser),
            EcoReleaseRequirement::ReleaseSecondaryDrmDevice,
        );
        let b = a + seq![EcoReleaseRequirement::UnloadNvidiaModules];
        let c = b + seq![
            EcoReleaseRequirement::VerifyNvidiaUsers,
            EcoReleaseRequirement::VerifyNvidiaModuleUnload,
        ];
        assert(reqs == c + when(
            eco_unknown(s).len() > 0,
            EcoReleaseRequirement::VerifyCompositorRelease,
        ));
        assert(reqs[a.len() as int] == EcoReleaseRequirement::UnloadNvidiaModules);
        assert(reqs[b.len() as int] == EcoReleaseRequirement::VerifyNvidiaUsers);
        assert(reqs[b.len() as int + 1] == EcoReleaseRequirement::VerifyNvidiaModuleUnload);
    }
}

/// A loaded module stack whose unload was not proven feasible is unknown
/// evidence, so the transition is never immediately ready.
pub proof fn lemma_unresolved_unload_fails_closed(s: EcoLivePreflightSnapshot)
    requires
        capability_ok(s),
        s.nvidia_modules_loaded,
        s.nvidia_module_unload_feasible != Some(true),
    ensures
        eco_assessment(s).unknown.len() > 0,
        eco_assessment(s).plan !is ReadyImmediately,
        readiness_of(eco_assessment(s)) !is Ready,
{
    lemma_ready_iff_ready_immediately(s);
}

/// Release work without a proven live compositor release is unknown
/// evidence, and a plan that can become ready then asks to verify the
/// compositor release.
pub proof fn lemma_unproven_compositor_release(s: EcoLivePreflightSnapshot)
    requires
        capability_ok(s),
        eco_release(s).len() > 0,
        s.compositor_release_supported != Some(true),
    ensures
        has_cat(eco_assessment(s).unknown, EcoLiveBlocker::Unknown),
        eco_assessment(s).plan !is ReadyImmediately,
        eco_assessment(s).plan matches PlanView::CanBecomeReady { release_requirements, .. }
            ==> release_requirements.contains(EcoReleaseRequirement::VerifyCompositorRelease),
{
    let u = eco_unknown(s);
    let k = u.len() - 1;
    assert(u[k].category == EcoLiveBlocker::Unknown);
    let reqs = eco_requirements(eco_release(s), u);
    assert(reqs[reqs.len() - 1] == EcoReleaseRequirement::VerifyCompositorRelease);
}

/// An immediately ready plan means every observable precondition passed:
/// firmware capability, consistent backend state, no pending supergfxd
/// mutation, MUX not on the dGPU, an integrated DRM device, unblocked
/// access with the NVIDIA function present, no loaded module stack and no
/// holder with open device, DRM or I²C handles.
pub proof fn lemma_ready_immediately_is_fail_closed(s: EcoLivePreflightSnapshot)
    requires
        eco_assessment(s).plan is ReadyImmediately,
    ensures
        capability_ok(s),
        eco_inconsistencies(s).len() == 0,
        s.supergfxd matches Some(g) && !pending_mutation(g),
        s.mux != Some(GpuMuxState::Discrete),
        s.integrated_drm_present,
        s.access == Some(GpuAccessPolicy::Unblocked),
        s.nvidia_pci_present,
        !s.nvidia_modules_loaded,
        forall|i: int|
            0 <= i < s.holders@.len() && (#[trigger] s.holders@[i]).kind
                != NvidiaHolderKind::MappedLibrary ==> s.holders@[i].count == 0,
{
    let hard = eco_hard(s);
    assert(hard.len() == 0);
    assert(pending_blocker(s).len() == 0);
    assert forall|i: int|
        0 <= i < s.holders@.len() && (#[trigger] s.holders@[i]).kind
            != NvidiaHolderKind::MappedLibrary implies s.holders@[i].count == 0 by {
        if s.holders@[i].count > 0 {
            lemma_released_holder_listed(s.holders@, i);
        }
    }
}

/// The module-busy flag and the runtime-status list are diagnostics only:
/// snapshots that differ in nothing else get the same plan and verdict.
pub proof fn lemma_busy_flag_is_informational(
    s1: EcoLivePreflightSnapshot,
    s2: EcoLivePreflightSnapshot,
)
    requires
        s2 == (EcoLivePreflightSnapshot {
            nvidia_module_busy: s2.nvidia_module_busy,
            nvidia_runtime_status: s2.nvidia_runtime_status,
            ..s1
        }),
    ensures
        eco_assessment(s1).plan == eco_assessment(s2).plan,
        readiness_of(eco_assessment(s1)) == readiness_of(eco_assessment(s2)),
{
    assert(eco_hard(s1) == eco_hard(s2));
    assert(eco_release(s1) == eco_release(s2));
    assert(eco_unknown(s1) == eco_unknown(s2));
    assert(eco_inconsistencies(s1) == eco_inconsistencies(s2));
}

// ---------------------------------------------------------------------------
// Host readings
// ---------------------------------------------------------------------------

/// The `u32` a trimmed sysfs value parses to, if any.
pub open spec fn u32_of(s: Seq<char>) -> Option<u32> {
    match parse_unsigned(s, 10, u32::MAX as nat) {
        Ok(v) => Some(v as u32),
        Err(_) => None,
    }
}

/// `[v]` for `Some(v)`, `[]` for `None`.
pub open spec fn opt_seq<T>(o: Option<T>) -> Seq<T> {
    match o {
        Some(v) => seq![v],
        None => seq![],
    }
}

/// The `;`-separated pieces of `s` that parse as `u32`, in order.
pub open spec fn semicolon_values(s: Seq<char>) -> Seq<u32>
    decreases s.len(),
{
    let i = index_of(s, ';');
    if i < 0 || i >= s.len() {
        opt_seq(u32_of(s))
    } else {
        opt_seq(u32_of(s.take(i))) + semicolon_values(s.skip(i + 1))
    }
}

/// `value?.parse::<u32>().ok()` on an optional, trimmed sysfs value.
pub fn parse_optional_u32(value: Option<String>) -> (r: Option<u32>)
    ensures
        r == (match value {
            Some(t) => u32_of(t@),
            None => None::<u32>,
        }),
{
    match value {
        Some(t) => {
            let cs = chars_of(t.as_str());
            assert(cs@.subrange(0, cs@.len() as int) =~= cs@);
            match parse_unsigned_at(&cs, 0, cs.len(), 10, 0xffff_ffff) {
                Ok(v) => Some(v as u32),
                Err(_) => None,
            }
        },
        None => None,
    }
}

/// `text.split(';').filter_map(|v| v.parse().ok()).collect()`.
pub fn parse_possible_values(text: &str) -> (r: Vec<u32>)
    ensures
        r@ == semicolon_values(text@),
{
    let cs = chars_of(text);
    let n = cs.len();
    let mut r: Vec<u32> = Vec::new();
    let mut pos: usize = 0;
    assert(cs@.subrange(0, n as int) =~= cs@);
    loop
        invariant
            0 <= pos <= n == cs@.len(),
            r@ + semicolon_values(cs@.subrange(pos as int, n as int)) == semicolon_values(text@),
            cs@ == text@,
        decreases n - pos,
    {
        let ghost rest = cs@.subrange(pos as int, n as int);
        match find_char(&cs, pos, n, ';') {
            Some(i) => {
                let ghost r0 = r@;
                assert(rest.take(i - pos) =~= cs@.subrange(pos as int, i as int));
                assert(rest.skip(i - pos + 1) =~= cs@.subrange(i + 1, n as int));
                match parse_unsigned_at(&cs, pos, i, 10, 0xffff_ffff) {
                    Ok(v) => {
                        r.push(v as u32);
                    },
                    Err(_) => {},
                }
                assert(r@ =~= r0 + opt_seq(u32_of(cs@.subrange(pos as int, i as int))));
                assert(r@ + semicolon_values(cs@.subrange(i + 1, n as int)) =~= r0 + (opt_seq(
                    u32_of(cs@.subrange(pos as int, i as int)),
                ) + semicolon_values(cs@.subrange(i + 1, n as int))));
                pos = i + 1;
            },
            None => {
                match parse_unsigned_at(&cs, pos, n, 10, 0xffff_ffff) {
                    Ok(v) => {
                        r.push(v as u32);
                    },
                    Err(_) => {},
                }
                return r;
            },
        }
    }
}

/// Whether a sysfs vendor file names NVIDIA (`0x10de` once trimmed).
pub fn is_nvidia_vendor(text: &str) -> (b: bool)
    ensures
        b == (trim(text@) == "0x10de"@),
{
    let t = trimmed(text);
    str_eq(t.as_str(), "0x10de")
}

/// Whether a `/sys/class/drm` entry is a display card (`cardN`, not a
/// connector such as `card0-eDP-1`).
pub fn is_display_card_entry(name: &str) -> (b: bool)
    ensures
        b == ("card"@.is_prefix_of(name@) && !contains_seq(name@, "-"@)),
{
    starts_with_str(name, "card") && !contains_str(name, "-")
}

/// Whether a `/sys/class/drm` entry is a DRM card or render node.
pub fn is_drm_node_entry(name: &str) -> (b: bool)
    ensures
        b == ("card"@.is_prefix_of(name@) || "renderD"@.is_prefix_of(name@)),
{
    starts_with_str(name, "card") || starts_with_str(name, "renderD")
}

/// Whether a `/sys/bus/i2c/devices` entry is an adapter.
pub fn is_i2c_adapter_entry(name: &str) -> (b: bool)
    ensures
        b == "i2c-"@.is_prefix_of(name@),
{
    starts_with_str(name, "i2c-")
}

/// The process id a `/proc` entry names, if it is numeric.
pub fn pid_of_entry(name: &str) -> (r: Option<u32>)
    ensures
        r == u32_of(name@),
{
    let cs = chars_of(name);
    assert(cs@.subrange(0, cs@.len() as int) =~= cs@);
    match parse_unsigned_at(&cs, 0, cs.len(), 10, 0xffff_ffff) {
        Ok(v) => Some(v as u32),
        Err(_) => None,
    }
}

/// Whether a text equals one of the strings of a list.
pub fn list_contains(list: &Vec<String>, s: &str) -> (b: bool)
    ensures
        b == strs(list@).contains(s@),
{
    let mut i: usize = 0;
    while i < list.len()
        invariant
            0 <= i <= list@.len(),
            forall|k: int| 0 <= k < i ==> list@[k]@ != s@,
        decreases list@.len() - i,
    {
        if str_eq(list[i].as_str(), s) {
            assert(strs(list@)[i as int] == s@);
            return true;
        }
        i = i + 1;
    }
    assert forall|k: int| 0 <= k < strs(list@).len() implies strs(list@)[k] != s@ by {
        assert(strs(list@)[k] == list@[k]@);
    }
    false
}

/// The holder kind an open file descriptor's target reveals: an NVIDIA
/// character device, an NVIDIA DRM node or an NVIDIA I²C adapter.
pub open spec fn fd_kind(target: Seq<char>, drm: Seq<Seq<char>>, i2c: Seq<Seq<char>>) -> Option<
    NvidiaHolderKind,
> {
    if "/dev/nvidia"@.is_prefix_of(target) {
        Some(NvidiaHolderKind::Device)
    } else if drm.contains(target) {
        Some(NvidiaHolderKind::Drm)
    } else if i2c.contains(target) {
        Some(NvidiaHolderKind::I2c)
    } else {
        None
    }
}

/// Classify the target of an open file descriptor.
pub fn fd_holder_kind(target: &str, nvidia_drm_nodes: &Vec<String>, nvidia_i2c_nodes: &Vec<String>) -> (r:
    Option<NvidiaHolderKind>)
    ensures
        r == fd_kind(target@, strs(nvidia_drm_nodes@), strs(nvidia_i2c_nodes@)),
{
    if starts_with_str(target, "/dev/nvidia") {
        Some(NvidiaHolderKind::Device)
    } else if list_contains(nvidia_drm_nodes, target) {
        Some(NvidiaHolderKind::Drm)
    } else if list_contains(nvidia_i2c_nodes, target) {
        Some(NvidiaHolderKind::I2c)
    } else {
        None
    }
}

/// Whether a line of `/proc/<pid>/maps` maps NVIDIA device or library state.
pub open spec fn nvidia_mapping_line(l: Seq<char>) -> bool {
    contains_seq(l, "/dev/nvidia"@) || contains_seq(l, "libnvidia-"@) || contains_seq(
        l,
        "libcuda.so"@,
    )
}

/// Whether some line of a maps file maps NVIDIA device or library state.
pub fn maps_reference_nvidia(content: &str) -> (b: bool)
    ensures
        b == exists|k: int| 0 <= k < lines(content@).len() && nvidia_mapping_line(
            #[trigger] lines(content@)[k],
        ),
{
    let cs = chars_of(content);
    let n = cs.len();
    let mut pos: usize = 0;
    let ghost mut seen: Seq<Seq<char>> = seq![];
    assert(cs@.subrange(0, n as int) =~= cs@);
    while pos < n
        invariant
            0 <= pos <= n == cs@.len(),
            cs@ == content@,
            lines(content@) == seen + lines(cs@.subrange(pos as int, n as int)),
            forall|k: int| 0 <= k < seen.len() ==> !nvidia_mapping_line(#[trigger] seen[k]),
        decreases n - pos,
    {
        let (a, b, next) = next_line(&cs, pos, n);
        let hit = contains_at(&cs, a, b, "/dev/nvidia") || contains_at(&cs, a, b, "libnvidia-")
            || contains_at(&cs, a, b, "libcuda.so");
        let ghost line = cs@.subrange(a as int, b as int);
        if hit {
            assert(lines(content@)[seen.len() as int] == line);
            return true;
        }
        proof {
            assert(seen + (seq![line] + lines(cs@.subrange(next as int, n as int))) =~= seen.push(
                line,
            ) + lines(cs@.subrange(next as int, n as int)));
            seen = seen.push(line);
        }
        pos = next;
    }
    assert(cs@.subrange(n as int, n as int).len() == 0);
    assert(lines(cs@.subrange(n as int, n as int)) =~= Seq::<Seq<char>>::empty());
    assert(lines(content@) =~= seen);
    false
}

/// What the host source read, as plain values, before it is assembled into
/// a snapshot.
#[derive(Debug, Clone, PartialEq, Eq)]
pub struct EcoHostReadings {
    /// `dgpu_disable/current_value`, if readable and numeric.
    pub dgpu_disable: Option<u32>,
    /// `gpu_mux_mode/current_value`, if readable and numeric.
    pub gpu_mux_mode: Option<u32>,
    /// The numeric entries of `dgpu_disable/possible_values`, if readable.
    pub possible_values: Option<Vec<u32>>,
    /// An NVIDIA PCI function exists.
    pub nvidia_pci_present: bool,
    /// Trimmed `power/runtime_status` of the NVIDIA functions.
    pub runtime_status: Vec<String>,
    /// A non-NVIDIA display card exists.
    pub integrated_drm_present: bool,
    /// `/sys/module/nvidia` exists.
    pub modules_loaded: bool,
    /// `sys/module/nvidia/refcnt`, if readable and numeric.
    pub module_refcount: Option<u32>,
    /// Processes with an open NVIDIA character device.
    pub device_holders: Vec<String>,
    /// Processes with an open NVIDIA DRM node.
    pub drm_holders: Vec<String>,
    /// Processes with an open NVIDIA I²C adapter.
    pub i2c_holders: Vec<String>,
    /// Processes mapping NVIDIA device or library state.
    pub mapped_holders: Vec<String>,
    /// The supergfxd state.
    pub supergfxd: SupergfxdSnapshot,
}

/// Spec view of a holder summary.
pub struct HolderView {
    /// Holder class.
    pub kind: NvidiaHolderKind,
    /// Number of holders.
    pub count: nat,
    /// Diagnostic details.
    pub details: Seq<Seq<char>>,
}

impl View for NvidiaHolderEvidence {
    type V = HolderView;

    open spec fn view(&self) -> HolderView {
        HolderView { kind: self.kind, count: self.count as nat, details: strs(self.details@) }
    }
}

/// The views of a list of holder summaries.
pub open spec fn holder_views(v: Seq<NvidiaHolderEvidence>) -> Seq<HolderView> {
    v.map_values(|h: NvidiaHolderEvidence| h@)
}

/// A holder summary of `kind` over the processes `list`, present only when
/// the list is non-empty.
pub open spec fn holder_of(kind: NvidiaHolderKind, list: Seq<Seq<char>>) -> Seq<HolderView> {
    when(list.len() > 0, HolderView { kind, count: list.len(), details: list })
}

/// The MUX state a `gpu_mux_mode` value names: 0 routes the display to the
/// dGPU, 1 to the iGPU.
pub open spec fn mux_of_value(v: u32) -> GpuMuxState {
    if v == 0 {
        GpuMuxState::Discrete
    } else if v == 1 {
        GpuMuxState::Integrated
    } else {
        GpuMuxState::Unknown
    }
}

/// The access policy a `dgpu_disable` value names: 0 leaves the dGPU usable.
pub open spec fn access_of_value(v: u32) -> GpuAccessPolicy {
    if v == 0 {
        GpuAccessPolicy::Unblocked
    } else {
        GpuAccessPolicy::Blocked
    }
}

fn holder_summary(
    holders: &mut Vec<NvidiaHolderEvidence>,
    kind: NvidiaHolderKind,
    list: Vec<String>,
)
    ensures
        holder_views(final(holders)@) == holder_views(old(holders)@) + holder_of(kind, strs(list@)),
{
    let ghost before = holder_views(holders@);
    if list.len() > 0 {
        let h = NvidiaHolderEvidence { kind, count: list.len(), details: list };
        holders.push(h);
        assert(holder_views(holders@) =~= before + holder_of(kind, strs(list@)));
    } else {
        assert(holder_views(holders@) =~= before + holder_of(kind, strs(list@)));
    }
}

/// Assemble the snapshot the planner classifies from the host readings.
///
/// The Armoury ABI is supported when both attributes read as numbers;
/// `dgpu_disable == 1` means the dGPU is disabled and blocks access; the
/// module counts as busy when its refcount is non-zero; holders are listed
/// as device, DRM, I²C, then mapped-library users, each only when present.
/// Unload feasibility and compositor release stay unresolved.
pub fn snapshot_from_readings(r: EcoHostReadings) -> (s: EcoLivePreflightSnapshot)
    ensures
        s.armoury_supported == (r.dgpu_disable is Some && r.gpu_mux_mode is Some),
        s.dgpu_disable_values == r.possible_values,
        s.dgpu_disabled == (match r.dgpu_disable {
            Some(v) => Some(v == 1),
            None => None::<bool>,
        }),
        s.mux == (match r.gpu_mux_mode {
            Some(v) => Some(mux_of_value(v)),
            None => None::<GpuMuxState>,
        }),
        s.access == (match r.dgpu_disable {
            Some(v) => Some(access_of_value(v)),
            None => None::<GpuAccessPolicy>,
        }),
        s.nvidia_pci_present == r.nvidia_pci_present,
        s.nvidia_runtime_status == r.runtime_status,
        s.nvidia_modules_loaded == r.modules_loaded,
        s.nvidia_module_refcount == (match r.module_refcount {
            Some(v) => Some(v as u64),
            None => None::<u64>,
        }),
        s.nvidia_module_busy == (match r.module_refcount {
            Some(v) => Some(v != 0),
            None => None::<bool>,
        }),
        s.nvidia_module_unload_feasible is None,
        holder_views(s.holders@) == holder_of(NvidiaHolderKind::Device, strs(r.device_holders@))
            + holder_of(NvidiaHolderKind::Drm, strs(r.drm_holders@)) + holder_of(
            NvidiaHolderKind::I2c,
            strs(r.i2c_holders@),
        ) + holder_of(NvidiaHolderKind::MappedLibrary, strs(r.mapped_holders@)),
        s.integrated_drm_present == r.integrated_drm_present,
        s.compositor_release_supported is None,
        s.supergfxd == Some(r.supergfxd),
        s.unknown@.len() == 0,
{
    let mut holders: Vec<NvidiaHolderEvidence> = Vec::new();
    assert(holder_views(holders@) =~= Seq::<HolderView>::empty());
    let ghost device = strs(r.device_holders@);
    let ghost drm = strs(r.drm_holders@);
    let ghost i2c = strs(r.i2c_holders@);
    let ghost mapped = strs(r.mapped_holders@);
    holder_summary(&mut holders, NvidiaHolderKind::Device, r.device_holders);
    holder_summary(&mut holders, NvidiaHolderKind::Drm, r.drm_holders);
    holder_summary(&mut holders, NvidiaHolderKind::I2c, r.i2c_holders);
    holder_summary(&mut holders, NvidiaHolderKind::MappedLibrary, r.mapped_holders);
    assert(Seq::<HolderView>::empty() + holder_of(NvidiaHolderKind::Device, device) =~= holder_of(
        NvidiaHolderKind::Device,
        device,
    ));
    let dgpu_disabled = match r.dgpu_disable {
        Some(v) => Some(v == 1),
        None => None,
    };
    let mux = match r.gpu_mux_mode {
        Some(v) => Some(
            if v == 0 {
                GpuMuxState::Discrete
            } else if v == 1 {
                GpuMuxState::Integrated
            } else {
                GpuMuxState::Unknown
            },
        ),
        None => None,
    };
    let access = match r.dgpu_disable {
        Some(v) => Some(
            if v == 0 {
                GpuAccessPolicy::Unblocked
            } else {
                GpuAccessPolicy::Blocked
            },
        ),
        None => None,
    };
    let refcount = match r.module_refcount {
        Some(v) => Some(v as u64),
        None => None,
    };
    let busy = match r.module_refcount {
        Some(v) => Some(v != 0),
        None => None,
    };
    EcoLivePreflightSnapshot {
        armoury_supported: r.dgpu_disable.is_some() && r.gpu_mux_mode.is_some(),
        dgpu_disable_values: r.possible_values,
        dgpu_disabled,
        mux,
        access,
        nvidia_pci_present: r.nvidia_pci_present,
        nvidia_runtime_status: r.runtime_status,
        nvidia_modules_loaded: r.modules_loaded,
        nvidia_module_refcount: refcount,
        nvidia_module_busy: busy,
        nvidia_module_unload_feasible: None,
        holders,
        integrated_drm_present: r.integrated_drm_present,
        compositor_release_supported: None,
        supergfxd: Some(r.supergfxd),
        unknown: Vec::new(),
    }
}

/// Read-only provider facade over a snapshot source.
pub struct NativeAsusEcoPreflightProvider<S> {
    /// The snapshot source.
    pub source: S,
}

impl<S> NativeAsusEcoPreflightProvider<S> {
    /// Construct without I/O.
    pub fn new(source: S) -> (p: Self)
        ensures
            p.source == source,
    {
        Self { source }
    }
}

/// Read-only host source rooted at a filesystem root. It intentionally does
/// not invoke NVML: waking/side effects are not required to establish this
/// preflight's conservative evidence.
#[derive(Debug, Clone)]
pub struct SystemNativeAsusEcoPreflightSource {
    /// Filesystem root the kernel interfaces are read below.
    pub root: String,
}

impl Default for SystemNativeAsusEcoPreflightSource {
    /// The live system, rooted at `/`.
    fn default() -> (s: Self)
        ensures
            s.root@ == "/"@,
    {
        Self { root: "/".to_owned() }
    }
}

impl SystemNativeAsusEcoPreflightSource {
    /// Construct with a filesystem root, primarily for deterministic tests/tools.
    pub fn new(root: &str) -> (s: Self)
        ensures
            s.root@ == root@,
    {
        Self { root: root.to_owned() }
    }

    /// `root.join(p.trim_start_matches('/'))`.
    pub fn path(&self, p: &str) -> (r: String)
        ensures
            r@ == below(self.root@, p@),
    {
        path_below(self.root.as_str(), p)
    }
}

} // verus!
