use std::time::{Duration, SystemTime};

use orbis_providers::diagnostics::{observation_from_result, DiagnosticObservation};
use orbis_providers::display_diagnostics::display_diagnostics_snapshot;
use orbis_providers::error::{DbusFailure, IoErrorKind, IoFailure, ProviderError};
use orbis_providers::gpu::{GpuAccessPolicy, GpuMuxState, GpuPowerState};
use orbis_providers::gpu_diagnostics::gpu_diagnostics_snapshot;
use orbis_providers::readiness::{
    bounded_outcome, bounded_readiness_probe, timeout_error, FeatureId, PermissionState, ReadinessState,
};
use orbis_providers::service_presence::{
    activatable_query_needed, check_with_query, map_fdo_error, DiagnosticsServiceId, PresenceQueryError, ServiceAvailability,
    ServiceBusScope, ServiceCriticality, ServiceDiagnostics, ServicePresenceTarget,
};
use orbis_providers::service_readiness::readiness_from_service_diagnostics;
use orbis_providers::telemetry::{
    BatteryTelemetry, FanId, FanTelemetry, FanTelemetryQuality, MilliWatt, Percent, Rpm, TemperatureC, Telemetry,
};
use orbis_providers::telemetry_diagnostics::{
    freshness_at, status_from_error, telemetry_diagnostics_after_attempt, telemetry_diagnostics_at_age,
    TelemetryCollectionStatus,
    TelemetryFreshness, TelemetryQuality,
};
use orbis_providers::wayland_output::DisplayOutputSnapshot;

fn io(message: &str) -> ProviderError {
    ProviderError::Io(IoFailure { kind: IoErrorKind::Other, raw_os_error: None, message: message.into() })
}

fn sample(ts: SystemTime) -> Telemetry {
    let mut t = Telemetry::empty();
    t.ts = ts;
    t
}

#[test]
fn successful_empty_snapshot_is_still_a_successful_observation() {
    let snapshot = DisplayOutputSnapshot { outputs: Vec::new() };
    assert_eq!(observation_from_result(Ok(snapshot.clone())), DiagnosticObservation::Value(snapshot));
}

#[test]
fn display_diagnostics_permission_denied_is_preserved() {
    assert_eq!(
        observation_from_result::<DisplayOutputSnapshot>(Err(ProviderError::PermissionDenied("denied".into()))),
        DiagnosticObservation::PermissionDenied
    );
}

#[test]
fn unavailable_provider_failures_are_not_fake_output_snapshots() {
    for error in [
        ProviderError::BackendUnavailable("no compositor".into()),
        ProviderError::Unsupported("not supported".into()),
        ProviderError::Timeout("timeout".into()),
    ] {
        assert_eq!(observation_from_result::<DisplayOutputSnapshot>(Err(error)), DiagnosticObservation::Unavailable);
    }
}

#[test]
fn transport_or_internal_failures_remain_unknown() {
    for error in [
        ProviderError::InvalidRequest("invalid".into()),
        io("io"),
        ProviderError::Dbus("dbus".into()),
        ProviderError::Internal("internal".into()),
    ] {
        assert_eq!(observation_from_result::<DisplayOutputSnapshot>(Err(error)), DiagnosticObservation::Unknown);
    }
}

#[test]
fn caller_owned_timestamp_can_remain_absent() {
    let diagnostics = display_diagnostics_snapshot(Ok(DisplayOutputSnapshot { outputs: Vec::new() }), None);
    assert!(diagnostics.checked_at.is_none());
}

#[test]
fn caller_owned_timestamp_is_preserved_exactly() {
    let checked_at = SystemTime::UNIX_EPOCH + Duration::from_secs(42);
    let diagnostics = display_diagnostics_snapshot(Ok(DisplayOutputSnapshot { outputs: Vec::new() }), Some(checked_at));
    assert_eq!(diagnostics.checked_at, Some(checked_at));
}

#[test]
fn primitive_failures_are_classified_independently() {
    let d = gpu_diagnostics_snapshot(
        Err(ProviderError::PermissionDenied("denied".into())),
        Err(ProviderError::BackendUnavailable("offline".into())),
        Err(ProviderError::Internal("invalid remote payload".into())),
    );
    assert_eq!(d.mux, DiagnosticObservation::PermissionDenied);
    assert_eq!(d.access_policy, DiagnosticObservation::Unavailable);
    assert_eq!(d.runtime_power, DiagnosticObservation::Unknown);
}

#[test]
fn successful_domain_unknown_values_remain_successful_observations() {
    let d = gpu_diagnostics_snapshot(Ok(GpuMuxState::Unknown), Ok(GpuAccessPolicy::Unknown), Ok(GpuPowerState::Unknown));
    assert_eq!(d.mux, DiagnosticObservation::Value(GpuMuxState::Unknown));
    assert_eq!(d.access_policy, DiagnosticObservation::Value(GpuAccessPolicy::Unknown));
    assert_eq!(d.runtime_power, DiagnosticObservation::Value(GpuPowerState::Unknown));
}

#[test]
fn unavailable_and_transport_failures_are_not_fake_domain_values() {
    let d = gpu_diagnostics_snapshot(
        Err(ProviderError::Unsupported("unsupported".into())),
        Err(ProviderError::Timeout("timeout".into())),
        Err(ProviderError::Dbus("transport failure".into())),
    );
    assert_eq!(d.mux, DiagnosticObservation::Unavailable);
    assert_eq!(d.access_policy, DiagnosticObservation::Unavailable);
    assert_eq!(d.runtime_power, DiagnosticObservation::Unknown);
}

#[test]
fn successful_primitives_are_preserved_without_product_mode_inference() {
    let d = gpu_diagnostics_snapshot(
        Ok(GpuMuxState::Discrete),
        Ok(GpuAccessPolicy::Blocked),
        Ok(GpuPowerState::Suspended),
    );
    assert_eq!(d.mux, DiagnosticObservation::Value(GpuMuxState::Discrete));
    assert_eq!(d.access_policy, DiagnosticObservation::Value(GpuAccessPolicy::Blocked));
    assert_eq!(d.runtime_power, DiagnosticObservation::Value(GpuPowerState::Suspended));
}

#[test]
fn successful_sample_is_preserved_exactly_and_marked_fresh_inside_threshold() {
    let sampled_at = SystemTime::UNIX_EPOCH + Duration::from_secs(100);
    let attempted_at = sampled_at + Duration::from_secs(2);
    let expected = sample(sampled_at);
    let diagnostics = telemetry_diagnostics_after_attempt(None, Ok(expected.clone()), attempted_at, Duration::from_secs(5));
    assert_eq!(diagnostics.latest, Some(expected));
    assert_eq!(diagnostics.status, TelemetryCollectionStatus::Available);
    assert_eq!(diagnostics.last_attempt_at, Some(attempted_at));
    assert_eq!(diagnostics.last_success_at, Some(sampled_at));
    assert_eq!(diagnostics.freshness, TelemetryFreshness::Unknown);
    assert_eq!(diagnostics.quality(), TelemetryQuality::Empty);
}

#[test]
fn successful_sample_becomes_stale_only_by_caller_owned_threshold() {
    let sampled_at = SystemTime::UNIX_EPOCH + Duration::from_secs(100);
    let attempted_at = sampled_at + Duration::from_secs(6);
    let diagnostics = telemetry_diagnostics_after_attempt(None, Ok(complete_sample(sampled_at)), attempted_at, Duration::from_secs(5));
    assert_eq!(diagnostics.status, TelemetryCollectionStatus::Available);
    assert_eq!(diagnostics.freshness, TelemetryFreshness::Stale);
    assert_eq!(diagnostics.quality(), TelemetryQuality::Stale);
}

#[test]
fn sample_at_threshold_is_still_fresh() {
    let sampled_at = SystemTime::UNIX_EPOCH + Duration::from_secs(100);
    let diagnostics = telemetry_diagnostics_after_attempt(None, Ok(complete_sample(sampled_at)), sampled_at + Duration::from_secs(5), Duration::from_secs(5));
    assert_eq!(diagnostics.freshness, TelemetryFreshness::Fresh);
}

#[test]
fn failed_refresh_preserves_last_good_sample_and_marks_it_stale() {
    let sampled_at = SystemTime::UNIX_EPOCH + Duration::from_secs(100);
    let last_good = telemetry_diagnostics_after_attempt(None, Ok(sample(sampled_at)), sampled_at + Duration::from_secs(1), Duration::from_secs(5));
    let failed_at = sampled_at + Duration::from_secs(2);
    let diagnostics = telemetry_diagnostics_after_attempt(
        Some(&last_good),
        Err(ProviderError::BackendUnavailable("telemetry unavailable".into())),
        failed_at,
        Duration::from_secs(5),
    );
    assert_eq!(diagnostics.latest, last_good.latest);
    assert_eq!(diagnostics.last_success_at, Some(sampled_at));
    assert_eq!(diagnostics.last_attempt_at, Some(failed_at));
    assert_eq!(diagnostics.status, TelemetryCollectionStatus::Unavailable);
    assert_eq!(diagnostics.freshness, TelemetryFreshness::Stale);
    assert_eq!(diagnostics.quality(), TelemetryQuality::Stale);
}

#[test]
fn initial_failure_does_not_create_synthetic_sample() {
    let attempted_at = SystemTime::UNIX_EPOCH + Duration::from_secs(50);
    let diagnostics = telemetry_diagnostics_after_attempt(None, Err(ProviderError::PermissionDenied("denied".into())), attempted_at, Duration::from_secs(5));
    assert!(diagnostics.latest.is_none());
    assert!(diagnostics.last_success_at.is_none());
    assert_eq!(diagnostics.last_attempt_at, Some(attempted_at));
    assert_eq!(diagnostics.status, TelemetryCollectionStatus::PermissionDenied);
    assert_eq!(diagnostics.freshness, TelemetryFreshness::Unknown);
    assert_eq!(diagnostics.quality(), TelemetryQuality::Failed);
}

#[test]
fn partial_success_is_not_downgraded_or_filled_with_fake_values() {
    let sampled_at = SystemTime::UNIX_EPOCH + Duration::from_secs(10);
    let mut partial = sample(sampled_at);
    partial.cpu_temp = Some(TemperatureC::new(46).unwrap());
    let diagnostics = telemetry_diagnostics_after_attempt(None, Ok(partial.clone()), sampled_at, Duration::ZERO);
    assert_eq!(diagnostics.status, TelemetryCollectionStatus::Available);
    assert_eq!(diagnostics.latest, Some(partial));
    assert_eq!(diagnostics.quality(), TelemetryQuality::Partial);
    let latest = diagnostics.latest.as_ref().unwrap();
    assert!(latest.cpu_temp.is_some());
    assert!(latest.gpu_temp.is_none());
    assert!(latest.fans.is_empty());
    assert!(latest.power.ac.is_none());
    assert!(latest.battery.is_none());
}

#[test]
fn clock_regression_keeps_freshness_unknown() {
    let sampled_at = SystemTime::UNIX_EPOCH + Duration::from_secs(100);
    let diagnostics = telemetry_diagnostics_after_attempt(None, Ok(sample(sampled_at)), sampled_at - Duration::from_secs(1), Duration::from_secs(5));
    assert_eq!(diagnostics.freshness, TelemetryFreshness::Unknown);
    assert_eq!(freshness_at(None, 5), TelemetryFreshness::Unknown);
    assert_eq!(freshness_at(Some(5), 5), TelemetryFreshness::Fresh);
    assert_eq!(freshness_at(Some(6), 5), TelemetryFreshness::Stale);
}

#[test]
fn provider_failures_map_without_fake_telemetry_status() {
    let cases = [
        (ProviderError::BackendUnavailable("offline".into()), TelemetryCollectionStatus::Unavailable),
        (ProviderError::Unsupported("unsupported".into()), TelemetryCollectionStatus::Unavailable),
        (ProviderError::Timeout("timeout".into()), TelemetryCollectionStatus::Unavailable),
        (ProviderError::PermissionDenied("denied".into()), TelemetryCollectionStatus::PermissionDenied),
        (ProviderError::Dbus("transport".into()), TelemetryCollectionStatus::Unknown),
        (io("io"), TelemetryCollectionStatus::Unknown),
        (ProviderError::Internal("internal".into()), TelemetryCollectionStatus::Unknown),
    ];
    for (error, expected) in cases {
        assert_eq!(status_from_error(&error), expected);
    }
}

fn complete_sample(ts: SystemTime) -> Telemetry {
    let mut t = sample(ts);
    t.cpu_temp = Some(TemperatureC::new(50).unwrap());
    t.gpu_temp = Some(TemperatureC::new(55).unwrap());
    t.fans.push(FanTelemetry {
        source: "test".into(),
        fan: FanId::Cpu,
        label: "cpu_fan".into(),
        rpm: Rpm::new(2000).unwrap(),
        percent: Some(Percent::new(40).unwrap()),
        quality: FanTelemetryQuality::Complete,
    });
    t.power.ac = Some(MilliWatt::new(50_000).unwrap());
    t.power.battery = Some(MilliWatt::new(20_000).unwrap());
    t.power.total = Some(MilliWatt::new(70_000).unwrap());
    t.power.gpu = Some(MilliWatt::new(10_000).unwrap());
    t.ac_online = Some(true);
    t.battery = Some(BatteryTelemetry {
        percent: Percent::new(80).unwrap(),
        capacity: Some(Percent::new(95).unwrap()),
        energy_now: None,
        energy_full: None,
        charge_cycles: Some(10),
        state: "Charging".into(),
    });
    t
}

#[test]
fn complete_sample_is_fresh_and_complete() {
    let sampled_at = SystemTime::UNIX_EPOCH + Duration::from_secs(100);
    let diagnostics = telemetry_diagnostics_after_attempt(None, Ok(complete_sample(sampled_at)), sampled_at, Duration::from_secs(5));
    assert_eq!(diagnostics.freshness, TelemetryFreshness::Fresh);
    assert_eq!(diagnostics.quality(), TelemetryQuality::Complete);
}

#[test]
fn timeout_becomes_unreachable_not_unsupported() {
    let outcome: Result<(), ProviderError> = bounded_outcome("readiness-test", "owner", 100, None);
    assert_eq!(
        outcome,
        Err(ProviderError::Timeout("provider 'readiness-test' operation 'owner' exceeded 100 ms".into()))
    );
    let item = bounded_readiness_probe("service", "owner", vec![FeatureId::Performance], false, Err(outcome.unwrap_err()));
    assert_eq!(item.state, ReadinessState::Unreachable);
    assert_eq!(item.permission, PermissionState::NotRequired);
}

#[test]
fn permission_is_separate_from_dependency_state() {
    let item = bounded_readiness_probe("hardware1", "authorize", vec![FeatureId::ChargeLimit], true, Err(ProviderError::PermissionDenied("polkit".into())));
    assert_eq!(item.state, ReadinessState::Ready);
    assert_eq!(item.permission, PermissionState::Denied);
    assert_eq!(item.evidence, vec!["polkit".to_string()]);
}

#[test]
fn internal_contract_failure_is_unknown_not_unreachable() {
    let item = bounded_readiness_probe("hardware1", "status", vec![FeatureId::ChargeLimit], false, Err(ProviderError::Internal("malformed payload".into())));
    assert_eq!(item.state, ReadinessState::Unknown);
}

#[test]
fn successful_probe_records_value_and_grants_required_permission() {
    let item = bounded_readiness_probe("hardware1", "status", vec![FeatureId::ChargeLimit], true, Ok("Some(80)".into()));
    assert_eq!(item.state, ReadinessState::Ready);
    assert_eq!(item.permission, PermissionState::Granted);
    assert_eq!(item.evidence, vec!["status: Some(80)".to_string()]);
    assert!(!item.blocks(FeatureId::ChargeLimit));
    let inactive = bounded_readiness_probe("asusd", "owner", vec![FeatureId::Aura], true, Err(ProviderError::BackendUnavailable("down".into())));
    assert_eq!(inactive.state, ReadinessState::Inactive);
    assert_eq!(inactive.permission, PermissionState::Unknown);
    assert!(inactive.blocks(FeatureId::Aura));
    assert!(!inactive.blocks(FeatureId::MiniLed));
    assert_eq!(timeout_error("p", "o", 7), ProviderError::Timeout("provider 'p' operation 'o' exceeded 7 ms".into()));
}

fn service_diagnostics(availability: ServiceAvailability) -> ServiceDiagnostics {
    ServiceDiagnostics {
        service: DiagnosticsServiceId::Asusd,
        bus: ServiceBusScope::System,
        availability,
        criticality: ServiceCriticality::CapabilityLocal,
        checked_at: None,
    }
}

#[test]
fn activatable_service_is_inactive_and_never_auto_started() {
    let item = readiness_from_service_diagnostics(&service_diagnostics(ServiceAvailability::Activatable), "asusd", vec![FeatureId::FanCurves]);
    assert_eq!(item.state, ReadinessState::Inactive);
    assert_eq!(item.permission, PermissionState::NotRequired);
    assert_eq!(item.evidence, vec!["service=Asusd bus=System availability=Activatable".to_string()]);
}

#[test]
fn permission_denial_remains_separate_evidence() {
    let item = readiness_from_service_diagnostics(&service_diagnostics(ServiceAvailability::PermissionDenied), "asusd", vec![FeatureId::FanCurves]);
    assert_eq!(item.state, ReadinessState::Unknown);
    assert_eq!(item.permission, PermissionState::Denied);
    assert!(item.blocks(FeatureId::FanCurves));
}

#[test]
fn running_service_is_ready() {
    let item = readiness_from_service_diagnostics(&service_diagnostics(ServiceAvailability::Running), "asusd", vec![FeatureId::FanCurves]);
    assert_eq!(item.state, ReadinessState::Ready);
    assert!(!item.blocks(FeatureId::FanCurves));
}

#[test]
fn service_targets_have_exact_names_and_bus_scopes() {
    let t = ServicePresenceTarget::of(DiagnosticsServiceId::OrbisHardwared);
    assert_eq!((t.service(), t.bus(), t.bus_name()), (DiagnosticsServiceId::OrbisHardwared, ServiceBusScope::System, "io.github.orbiscontrol.Hardware"));
    let t = ServicePresenceTarget::of(DiagnosticsServiceId::OrbisSessiond);
    assert_eq!((t.service(), t.bus(), t.bus_name()), (DiagnosticsServiceId::OrbisSessiond, ServiceBusScope::Session, "io.github.orbiscontrol.Session"));
    let t = ServicePresenceTarget::of(DiagnosticsServiceId::Asusd);
    assert_eq!((t.service(), t.bus(), t.bus_name()), (DiagnosticsServiceId::Asusd, ServiceBusScope::System, "xyz.ljones.Asusd"));
    let t = ServicePresenceTarget::of(DiagnosticsServiceId::Supergfxd);
    assert_eq!((t.service(), t.bus(), t.bus_name()), (DiagnosticsServiceId::Supergfxd, ServiceBusScope::System, "org.supergfxctl.Daemon"));
}

#[test]
fn owner_means_running_without_activatable_query() {
    assert!(!activatable_query_needed(Ok(true)));
    let d = check_with_query(ServicePresenceTarget::of(DiagnosticsServiceId::Asusd), Ok(true), Ok(vec![]), ServiceCriticality::Optional, None);
    assert_eq!(d.availability, ServiceAvailability::Running);
    assert_eq!(d.criticality, ServiceCriticality::Optional);
}

#[test]
fn owner_absent_but_known_activatable_means_activatable() {
    assert!(activatable_query_needed(Ok(false)));
    let d = check_with_query(ServicePresenceTarget::of(DiagnosticsServiceId::Asusd), Ok(false), Ok(vec!["xyz.ljones.Asusd".into()]), ServiceCriticality::CoreReadPath, None);
    assert_eq!(d.availability, ServiceAvailability::Activatable);
}

#[test]
fn owner_and_activation_absent_means_unavailable() {
    let d = check_with_query(ServicePresenceTarget::of(DiagnosticsServiceId::Supergfxd), Ok(false), Ok(vec!["xyz.ljones.Asusd".into()]), ServiceCriticality::CoreReadPath, None);
    assert_eq!(d.availability, ServiceAvailability::Unavailable);
}

#[test]
fn denied_owner_query_is_permission_denied_without_activation_query() {
    assert!(!activatable_query_needed(Err(PresenceQueryError::PermissionDenied)));
    let d = check_with_query(ServicePresenceTarget::of(DiagnosticsServiceId::Asusd), Err(PresenceQueryError::PermissionDenied), Ok(vec![]), ServiceCriticality::CoreReadPath, None);
    assert_eq!(d.availability, ServiceAvailability::PermissionDenied);
}

#[test]
fn denied_activation_query_is_permission_denied() {
    let d = check_with_query(ServicePresenceTarget::of(DiagnosticsServiceId::Asusd), Ok(false), Err(PresenceQueryError::PermissionDenied), ServiceCriticality::CoreReadPath, None);
    assert_eq!(d.availability, ServiceAvailability::PermissionDenied);
}

#[test]
fn unknown_query_failures_remain_unknown() {
    let d = check_with_query(ServicePresenceTarget::of(DiagnosticsServiceId::Asusd), Err(PresenceQueryError::Unknown), Ok(vec![]), ServiceCriticality::CoreReadPath, None);
    assert_eq!(d.availability, ServiceAvailability::Unknown);
    let d = check_with_query(ServicePresenceTarget::of(DiagnosticsServiceId::Asusd), Ok(false), Err(PresenceQueryError::Unknown), ServiceCriticality::CoreReadPath, None);
    assert_eq!(d.availability, ServiceAvailability::Unknown);
}

#[test]
fn provider_preserves_caller_owned_metadata_without_inference() {
    let at = SystemTime::UNIX_EPOCH + Duration::from_secs(9);
    let d = check_with_query(ServicePresenceTarget::of(DiagnosticsServiceId::OrbisSessiond), Ok(true), Ok(vec![]), ServiceCriticality::Optional, Some(at));
    assert_eq!(d.service, DiagnosticsServiceId::OrbisSessiond);
    assert_eq!(d.bus, ServiceBusScope::Session);
    assert_eq!(d.criticality, ServiceCriticality::Optional);
    assert_eq!(d.checked_at, Some(at));
}

#[test]
fn only_access_denied_maps_to_permission_denied() {
    let denied = DbusFailure::Fdo {
        name: "org.freedesktop.DBus.Error.AccessDenied".into(),
        message: "denied".into(),
        text: "org.freedesktop.DBus.Error.AccessDenied: denied".into(),
    };
    assert_eq!(map_fdo_error(&denied), PresenceQueryError::PermissionDenied);
    let failed = DbusFailure::Fdo {
        name: "org.freedesktop.DBus.Error.Failed".into(),
        message: "failed".into(),
        text: "org.freedesktop.DBus.Error.Failed: failed".into(),
    };
    assert_eq!(map_fdo_error(&failed), PresenceQueryError::Unknown);
    assert_eq!(map_fdo_error(&DbusFailure::Other { text: "broken".into() }), PresenceQueryError::Unknown);
}

#[test]
fn never_completing_operation_becomes_timeout() {
    let result = bounded_outcome::<()>("bounded-test", "read_status", 250, None);
    match result {
        Err(ProviderError::Timeout(detail)) => {
            assert!(detail.contains("bounded-test"));
            assert!(detail.contains("read_status"));
            assert!(detail.contains("250 ms"));
        }
        other => panic!("expected timeout, got {other:?}"),
    }
}

#[test]
fn provider_error_is_preserved() {
    let result =
        bounded_outcome::<()>("bounded-test", "read", 1000, Some(Err(ProviderError::Unsupported("not present".into()))));
    assert!(matches!(result, Err(ProviderError::Unsupported(detail)) if detail == "not present"));
}

#[test]
fn successful_value_is_preserved() {
    let result = bounded_outcome("bounded-test", "read", 1000, Some(Ok::<_, ProviderError>(42))).expect("bounded call should succeed");
    assert_eq!(result, 42);
}

#[test]
fn freshness_at_age_follows_the_threshold() {
    let sampled_at = SystemTime::UNIX_EPOCH + Duration::from_secs(100);
    let attempted_at = sampled_at + Duration::from_secs(3);
    let fresh = telemetry_diagnostics_at_age(None, Ok(complete_sample(sampled_at)), attempted_at, Some(5), 5);
    assert_eq!(fresh.freshness, TelemetryFreshness::Fresh);
    assert_eq!(fresh.last_success_at, Some(sampled_at));
    let stale = telemetry_diagnostics_at_age(None, Ok(complete_sample(sampled_at)), attempted_at, Some(6), 5);
    assert_eq!(stale.freshness, TelemetryFreshness::Stale);
    let regressed = telemetry_diagnostics_at_age(None, Ok(complete_sample(sampled_at)), attempted_at, None, 5);
    assert_eq!(regressed.freshness, TelemetryFreshness::Unknown);
    let empty = telemetry_diagnostics_at_age(None, Ok(sample(sampled_at)), attempted_at, Some(0), 5);
    assert_eq!(empty.freshness, TelemetryFreshness::Unknown);
    let failed = telemetry_diagnostics_at_age(Some(&fresh), Err(io("gone")), attempted_at, Some(0), 5);
    assert_eq!(failed.freshness, TelemetryFreshness::Stale);
    assert_eq!(failed.last_success_at, Some(sampled_at));
}
