use orbis_providers::error::ProviderError;
use orbis_providers::gpu::{GpuAccessPolicy, GpuMuxState, GpuPowerState};
use orbis_providers::limits::{PowerLimitField, PowerLimitValue, Unit};
use orbis_providers::mock::{
    default_curve, ActionRequirement, ApplyResult, GpuMode, LightingMode, MockErrorMode, MockProvider, MockState,
    PerformanceProfile, RefreshHz,
};
use orbis_providers::mock_reads::AutomationAction;
use orbis_providers::telemetry::{FanId, Percent, Rpm, TemperatureC};
use orbis_providers::traits::HotkeyProvider;

fn setup() -> MockProvider {
    MockProvider::new(MockState::full())
}

#[test]
fn profile_set_roundtrip() {
    let mut provider = setup();
    assert_eq!(provider.current_profile().unwrap(), PerformanceProfile::Balanced);
    let res = provider.set_profile(PerformanceProfile::Turbo).unwrap();
    assert!(res.is_applied());
    assert_eq!(provider.state().profile, PerformanceProfile::Turbo);
    assert_eq!(provider.state().ops, 2);
}

#[test]
fn charge_limit_validation() {
    let mut provider = setup();
    assert!(provider.set_charge_limit(50).is_ok());
    assert!(provider.set_charge_limit(10).is_err());
}

#[test]
fn initial_gpu_applied_state() {
    let provider = setup();
    let s = provider.state();
    assert_eq!(s.gpu_mode, GpuMode::Standard);
    assert_eq!(s.mux, GpuMuxState::Integrated);
    assert_eq!(s.access_policy, GpuAccessPolicy::Unblocked);
    assert_eq!(s.gpu_power_state, GpuPowerState::Active);
    assert!(s.pending_action.is_none());
}

#[test]
fn ultimate_pending_keeps_applied_state() {
    let mut provider = setup();
    let res = provider.set_mode(GpuMode::Ultimate, true).unwrap();
    assert!(matches!(res, ApplyResult::Pending { requirement: ActionRequirement::Reboot }));
    let s = provider.state();
    assert_eq!(s.gpu_mode, GpuMode::Ultimate);
    assert!(s.pending_action.is_some());
    assert_eq!(s.mux, GpuMuxState::Integrated);
    assert_eq!(s.access_policy, GpuAccessPolicy::Unblocked);
    assert_eq!(s.gpu_power_state, GpuPowerState::Active);
}

#[test]
fn repeated_ultimate_is_idempotent() {
    let mut provider = setup();
    provider.set_mode(GpuMode::Ultimate, true).unwrap();
    let (id_before, mux_before, access_before) = {
        let s = provider.state();
        let pa = s.pending_action.as_ref().expect("pending");
        (pa.id.clone(), s.mux, s.access_policy)
    };
    let res = provider.set_mode(GpuMode::Ultimate, true).unwrap();
    assert!(matches!(res, ApplyResult::Pending { .. }));
    let s = provider.state();
    assert_eq!(s.mux, mux_before);
    assert_eq!(s.access_policy, access_before);
    assert_eq!(s.gpu_power_state, GpuPowerState::Active);
    let pa = s.pending_action.as_ref().expect("pending");
    assert_eq!(pa.id, id_before);
}

#[test]
fn provider_error_preserves_all_state() {
    let mut state = MockState::full();
    state.error_mode = MockErrorMode::BackendDown;
    let mut provider = MockProvider::new(state);
    let (mode, mux, access, power, pending) = {
        let s = provider.state();
        (s.gpu_mode, s.mux, s.access_policy, s.gpu_power_state, s.pending_action.clone())
    };
    let res = provider.set_mode(GpuMode::Ultimate, true);
    assert!(res.is_err());
    let after = provider.state();
    assert_eq!(after.gpu_mode, mode);
    assert_eq!(after.mux, mux);
    assert_eq!(after.access_policy, access);
    assert_eq!(after.gpu_power_state, power);
    assert_eq!(after.pending_action, pending);
}

#[test]
fn applied_mode_still_changes_state() {
    let mut provider = setup();
    let res = provider.set_mode(GpuMode::Optimized, true).unwrap();
    assert!(matches!(res, ApplyResult::Applied));
    let s = provider.state();
    assert_eq!(s.gpu_mode, GpuMode::Optimized);
    assert_eq!(s.access_policy, GpuAccessPolicy::Blocked);
    assert_eq!(s.mux, GpuMuxState::Integrated);
}

#[test]
fn requested_and_applied_independently_readable() {
    let mut provider = setup();
    provider.set_mode(GpuMode::Ultimate, true).unwrap();
    assert_eq!(provider.requested_mode().unwrap(), GpuMode::Ultimate);
    assert_eq!(provider.mux_state().unwrap(), GpuMuxState::Integrated);
}

#[test]
fn backend_down_errors() {
    let mut state = MockState::full();
    state.error_mode = MockErrorMode::BackendDown;
    let mut provider = MockProvider::new(state);
    assert!(matches!(provider.current_profile(), Err(ProviderError::BackendUnavailable(_))));
}

#[test]
fn refresh_rate_validate() {
    let mut provider = setup();
    assert!(provider.set_refresh_rate(RefreshHz(144)).is_ok());
    assert!(provider.set_refresh_rate(RefreshHz(5)).is_err());
}

#[test]
fn three_fan_support() {
    let mut state = MockState::full();
    state.fans.push((FanId::Mid, Rpm::new(1500).unwrap()));
    let mut provider = MockProvider::new(state);
    let fans = provider.fan_ids().unwrap();
    assert_eq!(fans.len(), 3);
}

#[test]
fn every_operation_counts_once() {
    let mut provider = setup();
    provider.requested_mode().unwrap();
    provider.mux_state().unwrap();
    provider.access_policy().unwrap();
    assert_eq!(provider.state().ops, 3);
}

#[test]
fn hotkey_binding_names_the_operation_and_counts() {
    let mut provider = setup();
    let id = HotkeyProvider::bind(&mut provider, "toggle-profile", "cb-7").unwrap();
    assert_eq!(id.0, "toggle-profile:cb-7");
    assert!(HotkeyProvider::unbind(&mut provider, &id).is_ok());
    assert_eq!(provider.state().ops, 2);
    let mut down = MockState::full();
    down.error_mode = MockErrorMode::BackendDown;
    let mut provider = MockProvider::new(down);
    assert!(matches!(
        HotkeyProvider::bind(&mut provider, "a", "b"),
        Err(ProviderError::BackendUnavailable(_))
    ));
    assert_eq!(provider.state().ops, 0);
}

#[test]
fn profile_reads_report_the_state() {
    let mut provider = setup();
    assert_eq!(
        provider.profiles().unwrap(),
        vec![PerformanceProfile::Silent, PerformanceProfile::Balanced, PerformanceProfile::Turbo]
    );
    assert_eq!(provider.profile_on_ac().unwrap(), Some(PerformanceProfile::Balanced));
    assert_eq!(provider.profile_on_battery().unwrap(), Some(PerformanceProfile::Silent));
    assert_eq!(provider.state().ops, 3);
}

#[test]
fn one_shot_full_charge_raises_limit_to_upper_bound() {
    let mut provider = setup();
    assert_eq!(provider.one_shot_full_charge(), Ok(ApplyResult::Applied));
    let limit = provider.charge_limit().unwrap();
    assert_eq!(limit.percent, Some(Percent::new(100).unwrap()));
    assert!(limit.enabled);
}

#[test]
fn fan_curves_are_read_and_restored_per_profile() {
    let mut provider = setup();
    let curve = provider.fan_curve(PerformanceProfile::Turbo, &FanId::Gpu).unwrap();
    assert_eq!(curve, default_curve(PerformanceProfile::Turbo, FanId::Gpu));
    assert_eq!(curve.points[0].temp, TemperatureC::new(60).unwrap());
    assert!(matches!(
        provider.fan_curve(PerformanceProfile::Turbo, &FanId::Mid),
        Err(ProviderError::Unsupported(_))
    ));
    let before = provider.state().fan_curves.len();
    assert_eq!(provider.set_curves_to_defaults(PerformanceProfile::Silent), Ok(ApplyResult::Applied));
    assert_eq!(provider.state().fan_curves.len(), before);
    let rpms = provider.fan_rpms().unwrap();
    assert_eq!(rpms, vec![(FanId::Cpu, Rpm::new(2400).unwrap()), (FanId::Gpu, Rpm::new(2600).unwrap())]);
}

#[test]
fn display_lighting_and_anime_operations() {
    let mut provider = setup();
    assert_eq!(provider.set_overdrive(false), Ok(ApplyResult::Applied));
    let display = provider.display_mode().unwrap();
    assert_eq!(display.overdrive, Some(false));
    assert_eq!(display.current_hz, Some(RefreshHz(165)));
    assert_eq!(provider.lighting_mode().unwrap(), LightingMode::Static);
    assert_eq!(provider.anime_enabled().unwrap(), false);
    provider.anime_set_enabled(true).unwrap();
    assert_eq!(provider.anime_enabled().unwrap(), true);
    let ops = provider.state().ops;
    assert_eq!(provider.anime_set_brightness(Percent::new(50).unwrap()), Ok(ApplyResult::Applied));
    assert_eq!(provider.state().ops, ops + 1);
}

#[test]
fn automation_rules_select_profiles() {
    let mut provider = setup();
    let rules = provider.rules().unwrap();
    assert_eq!(rules.len(), 2);
    assert_eq!(rules[1].action, AutomationAction::SetProfile(PerformanceProfile::Silent));
    provider.apply_rule(&rules[1]).unwrap();
    assert_eq!(provider.state().profile, PerformanceProfile::Silent);
    assert_eq!(provider.state().ops, 1);
}

#[test]
fn restore_defaults_uses_firmware_defaults_only() {
    let mut state = MockState::full();
    state.power_limits.fields.push((PowerLimitField::Spl, PowerLimitValue::new(30, 10, 80, 1, Some(45), Unit::Watts).unwrap()));
    state.power_limits.fields.push((PowerLimitField::Fppt, PowerLimitValue::new(60, 10, 80, 1, None, Unit::Watts).unwrap()));
    let mut provider = MockProvider::new(state);
    assert_eq!(provider.restore_defaults(), Ok(ApplyResult::Applied));
    let limits = provider.power_limits().unwrap();
    assert_eq!(limits.get(&PowerLimitField::Spl).unwrap().value, 45);
    assert_eq!(limits.get(&PowerLimitField::Fppt).unwrap().value, 60);
}

#[test]
fn mock_offers_no_firmware_updates() {
    let provider = setup();
    assert_eq!(provider.check_updates(), Ok(vec![]));
    assert_eq!(provider.state().ops, 0);
}
