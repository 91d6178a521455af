use orbis_providers::error::ProviderError;
use orbis_providers::lact_telemetry::{merge_telemetry, pci_slot_from_device_id, LactTelemetryProvider, LACT_SOCKET_PATH};
use orbis_providers::telemetry::{GpuIdentity, GpuRole, GpuTelemetry, MilliWatt, Telemetry, TemperatureC};

fn gpu(role: GpuRole, pci_id: Option<&str>, temp: i16, power: u32) -> GpuTelemetry {
    GpuTelemetry {
        identity: Some(GpuIdentity {
            vendor: Some(if role == GpuRole::Discrete { "10de" } else { "1002" }.into()),
            pci_id: pci_id.map(str::to_owned),
        }),
        role,
        source: "fixture".into(),
        temperature: Some(TemperatureC::new(temp).unwrap()),
        power: Some(MilliWatt::new(power).unwrap()),
        fan: None,
    }
}

#[test]
fn pci_slot_extraction_from_lact_device_id() {
    assert_eq!(pci_slot_from_device_id("10DE:28E0-1043:1514-0000:01:00.0").as_deref(), Some("0000:01:00.0"));
    assert_eq!(pci_slot_from_device_id("1002:687F-1043:0555-0000:0b:00.0").as_deref(), Some("0000:0b:00.0"));
    assert_eq!(pci_slot_from_device_id("10DE:28E0-1043:1514-0000:01:00.0").as_deref(), Some("0000:01:00.0"));
    assert_eq!(pci_slot_from_device_id("10DE:28E0-x"), None);
    assert_eq!(pci_slot_from_device_id("10DE:28E0"), None);
    assert_eq!(pci_slot_from_device_id("10DE:28E0-not-a-slot"), None);
    assert_eq!(pci_slot_from_device_id(""), None);
}

#[test]
fn merge_keeps_integrated_and_discrete_separate_and_projects_discrete() {
    let mut primary = Telemetry::empty();
    primary.gpus.push(gpu(GpuRole::Integrated, Some("0000:06:00.0"), 45, 8141));
    primary.gpu_temp = Some(TemperatureC::new(45).unwrap());
    primary.power.gpu = Some(MilliWatt::new(8141).unwrap());
    let mut lact = Telemetry::empty();
    lact.gpus.push(gpu(GpuRole::Discrete, None, 61, 4725));
    lact.gpu_temp = Some(TemperatureC::new(61).unwrap());
    lact.power.gpu = Some(MilliWatt::new(4725).unwrap());
    let merged = merge_telemetry(Ok(primary), Ok(lact)).unwrap();
    assert_eq!(merged.gpus.len(), 2);
    assert_eq!(merged.gpu_temp, None);
    assert_eq!(merged.power.gpu, None);
}

#[test]
fn merge_same_complete_identity_keeps_primary_values_without_conflict() {
    let mut primary = Telemetry::empty();
    primary.gpus.push(gpu(GpuRole::Discrete, Some("0000:01:00.0"), 60, 4000));
    let mut lact = Telemetry::empty();
    lact.gpus.push(gpu(GpuRole::Discrete, Some("0000:01:00.0"), 61, 4725));
    let merged = merge_telemetry(Ok(primary), Ok(lact)).unwrap();
    assert_eq!(merged.gpus.len(), 1);
    assert_eq!(merged.gpus[0].temperature, Some(TemperatureC::new(60).unwrap()));
}

#[test]
fn merge_cross_source_identity_conventions_match() {
    let mut primary = Telemetry::empty();
    primary.gpus.push(gpu(GpuRole::Discrete, Some("0000:01:00.0"), 60, 4000));
    primary.gpus[0].identity.as_mut().unwrap().vendor = Some("0x10de".into());
    let mut lact = Telemetry::empty();
    lact.gpus.push(gpu(GpuRole::Discrete, Some("0000:01:00.0"), 61, 4725));
    lact.gpus[0].identity.as_mut().unwrap().vendor = Some("10DE".into());
    let merged = merge_telemetry(Ok(primary), Ok(lact)).unwrap();
    assert_eq!(merged.gpus.len(), 1);
    assert!(merged.gpus[0].fan.is_none() || merged.fans.is_empty());
}

#[test]
fn merge_different_slot_never_merges() {
    let mut primary = Telemetry::empty();
    primary.gpus.push(gpu(GpuRole::Discrete, Some("0000:01:00.0"), 60, 4000));
    primary.gpus[0].identity.as_mut().unwrap().vendor = Some("0x10de".into());
    let mut lact = Telemetry::empty();
    lact.gpus.push(gpu(GpuRole::Discrete, Some("0000:06:00.0"), 61, 4725));
    lact.gpus[0].identity.as_mut().unwrap().vendor = Some("10DE".into());
    let merged = merge_telemetry(Ok(primary), Ok(lact)).unwrap();
    assert_eq!(merged.gpus.len(), 2);
}

#[test]
fn merge_missing_identity_is_conservative() {
    let mut primary = Telemetry::empty();
    primary.gpus.push(GpuTelemetry {
        identity: None,
        role: GpuRole::Unknown,
        source: "unknown".into(),
        temperature: Some(TemperatureC::new(45).unwrap()),
        power: None,
        fan: None,
    });
    let mut lact = Telemetry::empty();
    lact.gpus.push(gpu(GpuRole::Discrete, None, 61, 4725));
    let merged = merge_telemetry(Ok(primary), Ok(lact)).unwrap();
    assert_eq!(merged.gpus.len(), 2);
    assert_eq!(merged.gpu_temp, None);
}

#[test]
fn unavailable_lact_does_not_break_primary() {
    let primary = Telemetry::empty();
    assert_eq!(
        merge_telemetry(Ok(primary.clone()), Err(ProviderError::BackendUnavailable("offline".into()))).unwrap(),
        primary
    );
}

#[test]
fn lact_socket_path_is_fixed_by_default() {
    assert_eq!(LACT_SOCKET_PATH, "/run/lactd.sock");
    assert_eq!(LactTelemetryProvider::new().socket_path(), "/run/lactd.sock");
    assert_eq!(LactTelemetryProvider::with_socket_path("/tmp/x.sock").socket_path(), "/tmp/x.sock");
}
