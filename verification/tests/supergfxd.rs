use orbis_providers::gpu::GpuPowerState;
use orbis_providers::supergfxd::{
    classify_supergfxd_state, power_from_wire, SupergfxdMode, SupergfxdSnapshot, SupergfxdStagedState,
    SupergfxdUserAction,
};

fn s(current: SupergfxdMode, pending: SupergfxdMode, action: SupergfxdUserAction) -> SupergfxdSnapshot {
    SupergfxdSnapshot {
        current_mode: current,
        pending_mode: pending,
        pending_user_action: action,
        power: GpuPowerState::Suspended,
        supported_modes: vec![SupergfxdMode::Hybrid, SupergfxdMode::Integrated, SupergfxdMode::AsusMuxDgpu],
    }
}

#[test]
fn wire_mappings_are_exact_and_future_safe() {
    assert_eq!(SupergfxdMode::from_wire(0), SupergfxdMode::Hybrid);
    assert_eq!(SupergfxdMode::from_wire(1), SupergfxdMode::Integrated);
    assert_eq!(SupergfxdMode::from_wire(2), SupergfxdMode::NvidiaNoModeset);
    assert_eq!(SupergfxdMode::from_wire(3), SupergfxdMode::Vfio);
    assert_eq!(SupergfxdMode::from_wire(4), SupergfxdMode::AsusEgpu);
    assert_eq!(SupergfxdMode::from_wire(5), SupergfxdMode::AsusMuxDgpu);
    assert_eq!(SupergfxdMode::from_wire(6), SupergfxdMode::NoMode);
    assert_eq!(SupergfxdMode::from_wire(99), SupergfxdMode::Unknown(99));
    assert_eq!(SupergfxdUserAction::from_wire(0), SupergfxdUserAction::Logout);
    assert_eq!(SupergfxdUserAction::from_wire(1), SupergfxdUserAction::Reboot);
    assert_eq!(SupergfxdUserAction::from_wire(2), SupergfxdUserAction::SwitchToIntegrated);
    assert_eq!(SupergfxdUserAction::from_wire(3), SupergfxdUserAction::AsusEgpuDisable);
    assert_eq!(SupergfxdUserAction::from_wire(4), SupergfxdUserAction::Nothing);
    assert_eq!(SupergfxdUserAction::from_wire(99), SupergfxdUserAction::Unknown(99));
}

#[test]
fn power_wire_mapping_preserves_unknown_states() {
    assert_eq!(power_from_wire(0), GpuPowerState::Active);
    assert_eq!(power_from_wire(1), GpuPowerState::Suspended);
    assert_eq!(power_from_wire(2), GpuPowerState::Off);
    for raw in [3, 4, 99] {
        assert_eq!(power_from_wire(raw), GpuPowerState::Unknown);
    }
}

#[test]
fn staged_invariants_are_preserved() {
    assert_eq!(
        classify_supergfxd_state(
            SupergfxdMode::Integrated,
            &s(SupergfxdMode::Integrated, SupergfxdMode::NoMode, SupergfxdUserAction::Nothing)
        ),
        SupergfxdStagedState::Applied
    );
    assert_eq!(
        classify_supergfxd_state(
            SupergfxdMode::Integrated,
            &s(SupergfxdMode::Hybrid, SupergfxdMode::Integrated, SupergfxdUserAction::Logout)
        ),
        SupergfxdStagedState::RequiresUserAction(SupergfxdUserAction::Logout)
    );
    assert_eq!(
        classify_supergfxd_state(
            SupergfxdMode::AsusMuxDgpu,
            &s(SupergfxdMode::Hybrid, SupergfxdMode::AsusMuxDgpu, SupergfxdUserAction::Reboot)
        ),
        SupergfxdStagedState::RequiresUserAction(SupergfxdUserAction::Reboot)
    );
    assert_eq!(
        classify_supergfxd_state(
            SupergfxdMode::Hybrid,
            &s(SupergfxdMode::Integrated, SupergfxdMode::Hybrid, SupergfxdUserAction::Nothing)
        ),
        SupergfxdStagedState::Pending
    );
    for state in [
        s(SupergfxdMode::Hybrid, SupergfxdMode::AsusMuxDgpu, SupergfxdUserAction::Nothing),
        s(SupergfxdMode::Hybrid, SupergfxdMode::NoMode, SupergfxdUserAction::Logout),
        s(SupergfxdMode::Integrated, SupergfxdMode::Hybrid, SupergfxdUserAction::Nothing),
        s(SupergfxdMode::Hybrid, SupergfxdMode::Integrated, SupergfxdUserAction::Unknown(9)),
        s(SupergfxdMode::Unknown(9), SupergfxdMode::NoMode, SupergfxdUserAction::Nothing),
    ] {
        assert_eq!(
            classify_supergfxd_state(SupergfxdMode::Integrated, &state),
            SupergfxdStagedState::Inconsistent
        );
    }
}

#[test]
fn mode_debug_text_names_the_variant() {
    assert_eq!(SupergfxdMode::NoMode.debug_text(), "None");
    assert_eq!(SupergfxdMode::Unknown(7).debug_text(), "Unknown(7)");
    assert_eq!(SupergfxdUserAction::Reboot.debug_text(), "Reboot");
}
