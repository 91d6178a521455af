use orbis_providers::gpu::{GpuAccessPolicy, GpuMuxState, GpuPowerState};
use orbis_providers::native_asus_eco::{
    classify_native_asus_eco, plan_native_asus_eco, EcoLiveBlocker, EcoLivePreflightSnapshot,
    EcoLiveReadiness, EcoReleaseRequirement, EcoTransitionPlan, NvidiaHolderEvidence,
    NvidiaHolderKind,
};
use orbis_providers::supergfxd::{SupergfxdMode, SupergfxdSnapshot, SupergfxdUserAction};

fn base() -> EcoLivePreflightSnapshot {
    EcoLivePreflightSnapshot {
        armoury_supported: true,
        dgpu_disable_values: Some(vec![0, 1]),
        dgpu_disabled: Some(false),
        mux: Some(GpuMuxState::Integrated),
        access: Some(GpuAccessPolicy::Unblocked),
        nvidia_pci_present: true,
        nvidia_runtime_status: vec!["suspended".into()],
        nvidia_modules_loaded: false,
        nvidia_module_refcount: None,
        nvidia_module_busy: Some(false),
        nvidia_module_unload_feasible: None,
        holders: vec![],
        integrated_drm_present: true,
        compositor_release_supported: None,
        supergfxd: Some(SupergfxdSnapshot {
            current_mode: SupergfxdMode::Hybrid,
            pending_mode: SupergfxdMode::NoMode,
            pending_user_action: SupergfxdUserAction::Nothing,
            power: GpuPowerState::Suspended,
            supported_modes: vec![SupergfxdMode::Hybrid, SupergfxdMode::Integrated],
        }),
        unknown: vec![],
    }
}

fn with_holder(kind: NvidiaHolderKind) -> EcoLivePreflightSnapshot {
    let mut s = base();
    s.holders = vec![NvidiaHolderEvidence {
        kind,
        count: 1,
        details: vec!["p".into()],
    }];
    s
}

#[test]
fn ready() {
    assert_eq!(classify_native_asus_eco(&base()), EcoLiveReadiness::Ready);
    assert!(matches!(
        plan_native_asus_eco(&base()).plan,
        EcoTransitionPlan::ReadyImmediately
    ));
}

#[test]
fn library_and_module_evidence_are_not_hard_blockers() {
    let s = with_holder(NvidiaHolderKind::MappedLibrary);
    let assessment = plan_native_asus_eco(&s);
    assert!(assessment.hard_blockers.is_empty());
    assert!(assessment.release_required.is_empty());
    assert!(matches!(assessment.plan, EcoTransitionPlan::ReadyImmediately));

    let mut s = base();
    s.nvidia_modules_loaded = true;
    s.nvidia_module_busy = Some(true);
    s.nvidia_module_refcount = Some(152);
    let assessment = plan_native_asus_eco(&s);
    assert!(assessment.hard_blockers.is_empty());
    assert!(assessment
        .informational
        .iter()
        .any(|e| e.category == EcoLiveBlocker::NvidiaModuleBusy));
    assert!(matches!(assessment.plan, EcoTransitionPlan::CanBecomeReady { .. }));
    assert!(assessment
        .release_required
        .iter()
        .any(|e| e.category == EcoLiveBlocker::NvidiaModulesLoaded));
}

#[test]
fn loaded_modules_require_unload_even_with_zero_refcount() {
    let mut s = base();
    s.nvidia_modules_loaded = true;
    s.nvidia_module_refcount = Some(0);
    s.nvidia_module_busy = Some(false);
    let assessment = plan_native_asus_eco(&s);
    assert!(matches!(assessment.plan, EcoTransitionPlan::CanBecomeReady { .. }));
    let plan = match assessment.plan {
        EcoTransitionPlan::CanBecomeReady { release_requirements, .. } => release_requirements,
        _ => unreachable!(),
    };
    assert_eq!(plan[0], EcoReleaseRequirement::UnloadNvidiaModules);
    assert_eq!(plan[1], EcoReleaseRequirement::VerifyNvidiaUsers);
    assert_eq!(plan[2], EcoReleaseRequirement::VerifyNvidiaModuleUnload);
}

#[test]
fn unload_feasibility_unknown_is_fail_closed() {
    let mut s = base();
    s.nvidia_modules_loaded = true;
    s.nvidia_module_unload_feasible = None;
    let assessment = plan_native_asus_eco(&s);
    assert!(!assessment.unknown.is_empty());
    assert!(!matches!(assessment.plan, EcoTransitionPlan::ReadyImmediately));
}

#[test]
fn absent_modules_allow_immediate_ready() {
    let assessment = plan_native_asus_eco(&base());
    assert!(matches!(assessment.plan, EcoTransitionPlan::ReadyImmediately));
}

#[test]
fn users_require_release() {
    for kind in [NvidiaHolderKind::Device, NvidiaHolderKind::Drm, NvidiaHolderKind::I2c] {
        let assessment = plan_native_asus_eco(&with_holder(kind));
        assert!(assessment.hard_blockers.is_empty());
        assert!(!assessment.release_required.is_empty());
        assert!(matches!(assessment.plan, EcoTransitionPlan::CanBecomeReady { .. }));
    }
}

#[test]
fn module_mux_display_pending_and_conflict_block_or_inconsistent() {
    let mut s = base();
    s.nvidia_module_busy = Some(true);
    assert_eq!(classify_native_asus_eco(&s), EcoLiveReadiness::Ready);
    let mut s = base();
    s.mux = Some(GpuMuxState::Discrete);
    assert!(matches!(classify_native_asus_eco(&s), EcoLiveReadiness::Blocked { .. }));
    let mut s = base();
    s.integrated_drm_present = false;
    assert!(matches!(classify_native_asus_eco(&s), EcoLiveReadiness::Unsupported(_)));
    let mut s = base();
    s.supergfxd.as_mut().unwrap().pending_mode = SupergfxdMode::Integrated;
    assert!(matches!(classify_native_asus_eco(&s), EcoLiveReadiness::Blocked { .. }));
    let mut s = base();
    s.supergfxd.as_mut().unwrap().current_mode = SupergfxdMode::Integrated;
    assert!(matches!(classify_native_asus_eco(&s), EcoLiveReadiness::Inconsistent(_)));
}

#[test]
fn unknown_compositor_release_is_not_immediate_ready() {
    let mut s = with_holder(NvidiaHolderKind::Drm);
    s.compositor_release_supported = None;
    let assessment = plan_native_asus_eco(&s);
    assert!(!assessment.unknown.is_empty());
    assert!(matches!(assessment.plan, EcoTransitionPlan::CanBecomeReady { .. }));
}

#[test]
fn card_release_does_not_imply_compositor_release() {
    let mut s = with_holder(NvidiaHolderKind::Device);
    s.compositor_release_supported = None;
    let assessment = plan_native_asus_eco(&s);
    assert!(assessment
        .release_required
        .iter()
        .any(|e| e.category == EcoLiveBlocker::NvidiaDeviceUser));
    assert!(assessment.unknown.iter().any(|e| e.category == EcoLiveBlocker::Unknown));
    let requirements = match &assessment.plan {
        EcoTransitionPlan::CanBecomeReady { release_requirements, .. } => release_requirements,
        _ => unreachable!(),
    };
    assert!(requirements.contains(&EcoReleaseRequirement::VerifyCompositorRelease));
    assert!(!matches!(
        assessment.plan,
        EcoTransitionPlan::ReadyImmediately | EcoTransitionPlan::RequiresLogout(_)
    ));
}

#[test]
fn remaining_render_and_core_users_stay_fail_closed_without_logout_claim() {
    let mut s = base();
    s.holders = vec![
        NvidiaHolderEvidence {
            kind: NvidiaHolderKind::Drm,
            count: 2,
            details: vec!["renderD129".into()],
        },
        NvidiaHolderEvidence {
            kind: NvidiaHolderKind::Device,
            count: 4,
            details: vec!["nvidiactl/nvidia0".into()],
        },
    ];
    s.compositor_release_supported = Some(true);
    let assessment = plan_native_asus_eco(&s);
    assert!(assessment
        .release_required
        .iter()
        .any(|e| e.category == EcoLiveBlocker::NvidiaDrmUser));
    assert!(assessment
        .release_required
        .iter()
        .any(|e| e.category == EcoLiveBlocker::NvidiaDeviceUser));
    assert!(!matches!(
        assessment.plan,
        EcoTransitionPlan::ReadyImmediately | EcoTransitionPlan::RequiresLogout(_)
    ));
}

#[test]
fn unsupported_and_unknown_are_conservative() {
    let mut s = base();
    s.armoury_supported = false;
    assert!(matches!(classify_native_asus_eco(&s), EcoLiveReadiness::Unsupported(_)));
    let mut s = base();
    s.unknown.push("x".into());
    assert!(matches!(classify_native_asus_eco(&s), EcoLiveReadiness::Inconsistent(_)));
}
