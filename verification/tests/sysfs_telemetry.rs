use orbis_providers::error::{IoErrorKind, IoFailure};
use orbis_providers::gpu::GpuPowerState;
use orbis_providers::sysfs_telemetry::{telemetry_from_readings, HwmonReadings, PowerSupplyReadings};
use orbis_providers::telemetry::{
    FanId, FanTelemetryQuality, MilliWatt, Percent, Rpm, TelemetryField, TelemetryFieldGap,
    TemperatureC,
};
use orbis_providers::telemetry_diagnostics::{quality_of, TelemetryQuality};

type F = Result<String, IoFailure>;

fn f(s: &str) -> F {
    Ok(s.to_string())
}

fn absent() -> F {
    Err(IoFailure { kind: IoErrorKind::NotFound, raw_os_error: Some(2), message: "No such file".into() })
}

fn denied() -> F {
    Err(IoFailure { kind: IoErrorKind::PermissionDenied, raw_os_error: Some(13), message: "denied".into() })
}

fn hwmon(name: &str) -> HwmonReadings {
    HwmonReadings {
        name: f(name),
        temp_labels: vec![],
        temp_inputs: vec![],
        power1_input: absent(),
        fan_labels: vec![],
        fan_inputs: vec![],
    }
}

fn k10temp(input: F) -> HwmonReadings {
    let mut h = hwmon("k10temp\n");
    h.temp_labels = vec![f("Tctl\n")];
    h.temp_inputs = vec![input];
    h
}

fn amdgpu(temp: F, power: F) -> HwmonReadings {
    let mut h = hwmon("amdgpu\n");
    h.temp_labels = vec![f("edge\n")];
    h.temp_inputs = vec![temp];
    h.power1_input = power;
    h
}

fn asus(fans: Vec<(F, F)>) -> HwmonReadings {
    let mut h = hwmon("asus\n");
    for (label, input) in fans {
        h.fan_labels.push(label);
        h.fan_inputs.push(input);
    }
    h
}

fn supply(kind: &str) -> PowerSupplyReadings {
    PowerSupplyReadings {
        supply_type: f(kind),
        capacity: absent(),
        status: absent(),
        cycle_count: absent(),
        charge_full: absent(),
        charge_full_design: absent(),
        online: absent(),
        online_exists: false,
    }
}

fn battery(capacity: F) -> PowerSupplyReadings {
    let mut b = supply("Battery\n");
    b.capacity = capacity;
    b
}

fn full_battery() -> PowerSupplyReadings {
    let mut b = battery(f("100\n"));
    b.status = f("Full\n");
    b.cycle_count = f("0\n");
    b.charge_full = f("4962000\n");
    b.charge_full_design = f("5675000\n");
    b
}

fn ac(online: F) -> PowerSupplyReadings {
    let mut a = supply("Mains\n");
    a.online = online;
    a.online_exists = true;
    a
}

fn full_hwmon() -> Vec<HwmonReadings> {
    vec![
        k10temp(f("46375\n")),
        amdgpu(f("43000\n"), f("13073000\n")),
        asus(vec![(f("cpu_fan\n"), f("2600\n")), (f("gpu_fan\n"), f("2100\n"))]),
    ]
}

#[test]
fn full_fixture_reads_all_fields() {
    let t = telemetry_from_readings(&full_hwmon(), &vec![full_battery(), ac(f("1\n"))]);
    assert_eq!(t.cpu_temp, Some(TemperatureC::new(46).unwrap()));
    assert_eq!(t.gpu_temp, Some(TemperatureC::new(43).unwrap()));
    assert_eq!(t.power.gpu, Some(MilliWatt::new(13_073).unwrap()));
    assert_eq!(t.ac_online, Some(true));
    assert!(t.field_gaps.is_empty());
    assert_eq!(t.fans.len(), 2);
    let cpu = t.fans.iter().find(|x| x.fan == FanId::Cpu).expect("cpu fan");
    assert_eq!(cpu.rpm, Rpm::new(2600).unwrap());
    assert_eq!(cpu.percent, None);
    assert_eq!(cpu.label, "cpu_fan");
    assert_eq!(cpu.source, "asus-hwmon");
    assert_eq!(cpu.quality, FanTelemetryQuality::Complete);
    let gpu = t.fans.iter().find(|x| x.fan == FanId::Gpu).expect("gpu fan");
    assert_eq!(gpu.rpm, Rpm::new(2100).unwrap());
    let battery = t.battery.clone().expect("battery");
    assert_eq!(battery.percent, Percent::new(100).unwrap());
    assert_eq!(battery.state, "Full");
    assert_eq!(battery.charge_cycles, Some(0));
    assert_eq!(battery.capacity, Some(Percent::new(87).unwrap()));
    assert_eq!(battery.energy_now, None);
    assert_eq!(battery.energy_full, None);
    assert_eq!(t.power.ac, None);
    assert_eq!(t.power.battery, None);
    assert_eq!(t.power.total, None);
    assert_eq!(t.gpu_power_state, GpuPowerState::Unknown);
}

#[test]
fn discovery_works_with_different_hwmon_indices() {
    let hw = vec![
        k10temp(f("50000\n")),
        amdgpu(f("41000\n"), absent()),
        asus(vec![(f("cpu_fan\n"), f("3000\n"))]),
    ];
    let t = telemetry_from_readings(&hw, &vec![]);
    assert_eq!(t.cpu_temp, Some(TemperatureC::new(50).unwrap()));
    assert_eq!(t.gpu_temp, Some(TemperatureC::new(41).unwrap()));
    assert_eq!(t.fans.len(), 1);
    assert_eq!(t.fans[0].rpm, Rpm::new(3000).unwrap());
}

#[test]
fn missing_files_yield_none_without_breaking_snapshot() {
    let t = telemetry_from_readings(&vec![k10temp(f("46375\n"))], &vec![battery(f("80\n"))]);
    assert_eq!(t.cpu_temp, Some(TemperatureC::new(46).unwrap()));
    assert_eq!(t.gpu_temp, None);
    assert_eq!(t.power.gpu, None);
    assert!(t.fans.is_empty());
    assert_eq!(t.ac_online, None);
    let battery = t.battery.clone().expect("battery");
    assert_eq!(battery.percent, Percent::new(80).unwrap());
    assert_eq!(battery.state, "");
    assert_eq!(battery.charge_cycles, None);
    assert_eq!(battery.capacity, None);
}

#[test]
fn empty_sysfs_root_yields_empty_snapshot() {
    let t = telemetry_from_readings(&vec![], &vec![]);
    assert_eq!(t.cpu_temp, None);
    assert_eq!(t.gpu_temp, None);
    assert!(t.fans.is_empty());
    assert_eq!(t.battery, None);
    assert_eq!(t.ac_online, None);
    assert!(t.field_gaps.is_empty());
}

#[test]
fn malformed_battery_capacity_kills_group_with_gap_evidence() {
    let t = telemetry_from_readings(&vec![k10temp(f("46375\n"))], &vec![battery(f("garbage\n"))]);
    assert_eq!(t.battery, None);
    assert_eq!(t.gap(TelemetryField::Battery), Some(TelemetryFieldGap::Malformed));
    assert_eq!(t.cpu_temp, Some(TemperatureC::new(46).unwrap()));
    assert_eq!(t.gap(TelemetryField::CpuTemp), None);
}

#[test]
fn all_discovered_sources_failing_yields_ok_empty_snapshot() {
    let g = || f("garbage\n");
    let hw = vec![
        k10temp(g()),
        amdgpu(g(), g()),
        asus(vec![(f("cpu_fan\n"), g()), (f("gpu_fan\n"), g())]),
    ];
    let t = telemetry_from_readings(&hw, &vec![battery(g()), ac(g())]);
    assert_eq!(quality_of(&t), TelemetryQuality::Empty);
    assert_eq!(t.cpu_temp, None);
    assert_eq!(t.gpu_temp, None);
    assert_eq!(t.power.gpu, None);
    assert!(t.fans.is_empty());
    assert_eq!(t.battery, None);
    assert_eq!(t.ac_online, None);
    for field in [
        TelemetryField::CpuTemp,
        TelemetryField::GpuTemp,
        TelemetryField::GpuPower,
        TelemetryField::Fans,
        TelemetryField::AcOnline,
        TelemetryField::Battery,
    ] {
        assert_eq!(t.gap(field), Some(TelemetryFieldGap::Malformed), "expected Malformed gap for {field:?}");
    }
    assert_eq!(t.field_gaps.len(), 6);
}

#[test]
fn unreadable_source_degrades_field_locally() {
    let mut hw = full_hwmon();
    hw[0] = k10temp(denied());
    let t = telemetry_from_readings(&hw, &vec![full_battery(), ac(f("1\n"))]);
    assert_eq!(t.cpu_temp, None);
    assert_eq!(t.gap(TelemetryField::CpuTemp), Some(TelemetryFieldGap::Denied));
    assert_eq!(t.gpu_temp, Some(TemperatureC::new(43).unwrap()));
    assert_eq!(t.fans.len(), 2);
    assert!(t.battery.is_some());
    assert_eq!(t.ac_online, Some(true));
}

#[test]
fn unreadable_source_class_is_unavailable_for_other_io_errors() {
    let other = Err(IoFailure { kind: IoErrorKind::Other, raw_os_error: Some(5), message: "EIO".into() });
    let t = telemetry_from_readings(&vec![k10temp(other)], &vec![]);
    assert_eq!(t.cpu_temp, None);
    assert_eq!(t.gap(TelemetryField::CpuTemp), Some(TelemetryFieldGap::Unavailable));
}

#[test]
fn malformed_cpu_temp_degrades_to_none() {
    let t = telemetry_from_readings(&vec![k10temp(f("not-a-number\n"))], &vec![]);
    assert_eq!(t.cpu_temp, None);
    assert_eq!(t.gap(TelemetryField::CpuTemp), Some(TelemetryFieldGap::Malformed));
}

#[test]
fn empty_cpu_temp_file_degrades_to_none() {
    let t = telemetry_from_readings(&vec![k10temp(f("\n"))], &vec![]);
    assert_eq!(t.cpu_temp, None);
    assert_eq!(t.gap(TelemetryField::CpuTemp), Some(TelemetryFieldGap::Malformed));
}

#[test]
fn out_of_range_cpu_temp_degrades_to_none() {
    let t = telemetry_from_readings(&vec![k10temp(f("999999\n"))], &vec![]);
    assert_eq!(t.cpu_temp, None);
}

#[test]
fn malformed_fan_rpm_degrades_to_empty() {
    let t = telemetry_from_readings(&vec![asus(vec![(f("cpu_fan\n"), f("65536\n"))])], &vec![]);
    assert!(t.fans.is_empty());
    assert_eq!(t.gap(TelemetryField::Fans), Some(TelemetryFieldGap::Malformed));
}

#[test]
fn malformed_fan1_preserves_fan0() {
    let t = telemetry_from_readings(
        &vec![asus(vec![(f("cpu_fan\n"), f("2600\n")), (f("gpu_fan\n"), f("not-a-number\n"))])],
        &vec![],
    );
    assert_eq!(t.fans.len(), 1);
    assert_eq!(t.fans[0].fan, FanId::Cpu);
    assert_eq!(t.fans[0].rpm, Rpm::new(2600).unwrap());
    assert!(t.field_gaps.is_empty());
}

#[test]
fn fan_rpm_zero_is_some_not_none() {
    let t = telemetry_from_readings(&vec![asus(vec![(f("cpu_fan\n"), f("0\n"))])], &vec![]);
    assert_eq!(t.fans.len(), 1);
    assert_eq!(t.fans[0].rpm, Rpm::new(0).unwrap());
}

#[test]
fn missing_fan_input_preserves_valid_neighbor() {
    let t = telemetry_from_readings(
        &vec![asus(vec![(f("cpu_fan\n"), absent()), (f("gpu_fan\n"), f("3200\n"))])],
        &vec![],
    );
    assert_eq!(t.fans.len(), 1);
    assert_eq!(t.fans[0].fan, FanId::Gpu);
    assert_eq!(t.fans[0].rpm, Rpm::new(3200).unwrap());
}

#[test]
fn power_supply_discovery_requires_explicit_type() {
    let mut not_a_battery = supply("Mains\n");
    not_a_battery.capacity = f("1\n");
    let mut battery_with_online = battery(absent());
    battery_with_online.online = f("0\n");
    battery_with_online.online_exists = true;
    let t = telemetry_from_readings(
        &vec![],
        &vec![not_a_battery, battery_with_online, battery(f("77\n")), ac(f("1\n"))],
    );
    assert_eq!(t.battery.unwrap().percent, Percent::new(77).unwrap());
    assert_eq!(t.ac_online, Some(true));
}

#[test]
fn discovery_skips_unclassifiable_entries() {
    let t = telemetry_from_readings(
        &vec![hwmon("\n"), k10temp(f("47000\n"))],
        &vec![supply("\n"), battery(f("77\n")), ac(f("1\n"))],
    );
    assert_eq!(t.cpu_temp, Some(TemperatureC::new(47).unwrap()));
    assert_eq!(t.battery.unwrap().percent, Percent::new(77).unwrap());
    assert_eq!(t.ac_online, Some(true));
}

#[test]
fn units_are_converted_correctly() {
    let hw = vec![
        k10temp(f("46375\n")),
        amdgpu(f("43000\n"), f("13073000\n")),
        asus(vec![(f("cpu_fan\n"), f("2600\n"))]),
    ];
    let t = telemetry_from_readings(&hw, &vec![]);
    assert_eq!(t.cpu_temp, Some(TemperatureC::new(46).unwrap()));
    assert_eq!(t.gpu_temp, Some(TemperatureC::new(43).unwrap()));
    assert_eq!(t.power.gpu, Some(MilliWatt::new(13_073).unwrap()));
    assert_eq!(t.fans[0].rpm, Rpm::new(2600).unwrap());
}

#[test]
fn sub_unit_values_truncate_toward_zero() {
    let t = telemetry_from_readings(&vec![amdgpu(f("55999\n"), f("1999\n"))], &vec![]);
    assert_eq!(t.gpu_temp, Some(TemperatureC::new(55).unwrap()));
    assert_eq!(t.power.gpu, Some(MilliWatt::new(1).unwrap()));
}

#[test]
fn ac_online_parses_zero_and_one() {
    assert_eq!(telemetry_from_readings(&vec![], &vec![ac(f("0\n"))]).ac_online, Some(false));
    assert_eq!(telemetry_from_readings(&vec![], &vec![ac(f("1\n"))]).ac_online, Some(true));
}

#[test]
fn ac_online_other_values_are_malformed() {
    let t = telemetry_from_readings(&vec![], &vec![ac(f("2\n"))]);
    assert_eq!(t.ac_online, None);
    assert_eq!(t.gap(TelemetryField::AcOnline), Some(TelemetryFieldGap::Malformed));
}

#[test]
fn battery_health_clamps_to_100() {
    let mut b = battery(f("50\n"));
    b.charge_full = f("6000000\n");
    b.charge_full_design = f("5000000\n");
    let t = telemetry_from_readings(&vec![], &vec![b]);
    assert_eq!(t.battery.unwrap().capacity, Some(Percent::new(100).unwrap()));
}

#[test]
fn battery_health_zero_design_is_none() {
    let mut b = battery(f("50\n"));
    b.charge_full = f("6000000\n");
    b.charge_full_design = f("0\n");
    let t = telemetry_from_readings(&vec![], &vec![b]);
    assert_eq!(t.battery.unwrap().capacity, None);
}

#[test]
fn malformed_battery_cycle_count_does_not_kill_percent() {
    let mut b = battery(f("80\n"));
    b.status = f("Discharging\n");
    b.cycle_count = f("not-a-number\n");
    b.charge_full = f("4962000\n");
    b.charge_full_design = f("5675000\n");
    let t = telemetry_from_readings(&vec![], &vec![b]);
    let battery = t.battery.expect("battery must exist");
    assert_eq!(battery.percent, Percent::new(80).unwrap());
    assert_eq!(battery.state, "Discharging");
    assert_eq!(battery.charge_cycles, None);
    assert_eq!(battery.capacity, Some(Percent::new(87).unwrap()));
}

#[test]
fn no_mock_telemetry_values_are_used() {
    let t = telemetry_from_readings(&vec![k10temp(f("46375\n")), amdgpu(f("43000\n"), absent())], &vec![]);
    assert_ne!(t.cpu_temp, Some(TemperatureC::new(72).unwrap()));
    assert_ne!(t.gpu_temp, Some(TemperatureC::new(65).unwrap()));
    assert_eq!(t.power.ac, None);
}

#[test]
fn malformed_cpu_temp_does_not_break_battery_ac_fans() {
    let mut hw = full_hwmon();
    hw[0] = k10temp(f("not-a-number\n"));
    let t = telemetry_from_readings(&hw, &vec![full_battery(), ac(f("1\n"))]);
    assert_eq!(t.cpu_temp, None);
    assert_eq!(t.gpu_temp, Some(TemperatureC::new(43).unwrap()));
    assert_eq!(t.power.gpu, Some(MilliWatt::new(13_073).unwrap()));
    assert_eq!(t.fans.len(), 2);
    assert!(t.battery.is_some());
    assert_eq!(t.ac_online, Some(true));
}

#[test]
fn malformed_gpu_power_does_not_break_cpu() {
    let mut hw = full_hwmon();
    hw[1] = amdgpu(f("43000\n"), f("not-a-number\n"));
    let t = telemetry_from_readings(&hw, &vec![full_battery(), ac(f("1\n"))]);
    assert_eq!(t.power.gpu, None);
    assert_eq!(t.cpu_temp, Some(TemperatureC::new(46).unwrap()));
    assert_eq!(t.gpu_temp, Some(TemperatureC::new(43).unwrap()));
    assert_eq!(t.fans.len(), 2);
    assert!(t.battery.is_some());
    assert_eq!(t.ac_online, Some(true));
}

#[test]
fn ac_online_zero_is_some_false() {
    let t = telemetry_from_readings(&vec![], &vec![ac(f("0\n"))]);
    assert_eq!(t.ac_online, Some(false));
}

#[test]
fn missing_ac_is_none() {
    let t = telemetry_from_readings(&vec![], &vec![battery(f("80\n"))]);
    assert_eq!(t.ac_online, None);
}

#[test]
fn malformed_fan_rpm_is_not_zero() {
    let t = telemetry_from_readings(&vec![asus(vec![(f("cpu_fan\n"), f("not-a-number\n"))])], &vec![]);
    assert!(t.fans.is_empty());
}

#[test]
fn disappearing_selected_source_does_not_kill_snapshot() {
    let mut k = hwmon("k10temp\n");
    k.temp_inputs = vec![absent()];
    let t = telemetry_from_readings(&vec![k], &vec![battery(f("85\n")), ac(f("1\n"))]);
    assert_eq!(t.cpu_temp, None);
    assert!(t.battery.is_some());
    assert_eq!(t.ac_online, Some(true));
}

#[test]
fn overflow_metric_does_not_wrap_truncate() {
    let mut a = hwmon("amdgpu\n");
    a.power1_input = f("9999999999999\n");
    let t = telemetry_from_readings(&vec![a], &vec![]);
    assert_eq!(t.power.gpu, None);
}

#[test]
fn malformed_unrelated_discovery_entry_still_skipped() {
    let mut h = hwmon("not-a-number\n");
    h.temp_inputs = vec![f("50000\n")];
    let t = telemetry_from_readings(&vec![h], &vec![battery(f("90\n"))]);
    assert_eq!(t.cpu_temp, None);
    assert_eq!(t.battery.unwrap().percent, Percent::new(90).unwrap());
}

#[test]
fn malformed_fan0_label_preserves_fan1() {
    let t = telemetry_from_readings(
        &vec![asus(vec![(f("\n"), f("9999\n")), (f("gpu_fan\n"), f("3200\n"))])],
        &vec![],
    );
    assert_eq!(t.fans.len(), 1);
    assert_eq!(t.fans[0].fan, FanId::Gpu);
    assert_eq!(t.fans[0].rpm, Rpm::new(3200).unwrap());
}

#[test]
fn fan_rpm_zero_with_malformed_neighbor() {
    let t = telemetry_from_readings(
        &vec![asus(vec![(f("cpu_fan\n"), f("0\n")), (f("gpu_fan\n"), f("not-a-number\n"))])],
        &vec![],
    );
    assert_eq!(t.fans.len(), 1);
    assert_eq!(t.fans[0].fan, FanId::Cpu);
    assert_eq!(t.fans[0].rpm, Rpm::new(0).unwrap());
}

#[test]
fn fan_overflow_preserves_valid_neighbor() {
    let t = telemetry_from_readings(
        &vec![asus(vec![(f("cpu_fan\n"), f("999999\n")), (f("gpu_fan\n"), f("3200\n"))])],
        &vec![],
    );
    assert_eq!(t.fans.len(), 1);
    assert_eq!(t.fans[0].fan, FanId::Gpu);
    assert_eq!(t.fans[0].rpm, Rpm::new(3200).unwrap());
}

#[test]
fn malformed_fan_does_not_break_cpu_battery_ac() {
    let t = telemetry_from_readings(
        &vec![k10temp(f("46375\n")), asus(vec![(f("cpu_fan\n"), f("not-a-number\n"))])],
        &vec![battery(f("80\n")), ac(f("1\n"))],
    );
    assert_eq!(t.cpu_temp, Some(TemperatureC::new(46).unwrap()));
    assert!(t.fans.is_empty());
    assert!(t.battery.is_some());
    assert_eq!(t.ac_online, Some(true));
}

#[test]
fn all_fans_malformed_snapshot_succeeds() {
    let t = telemetry_from_readings(
        &vec![asus(vec![(f("cpu_fan\n"), f("not-a-number\n")), (f("gpu_fan\n"), f("overflow\n"))])],
        &vec![],
    );
    assert!(t.fans.is_empty());
}

#[test]
fn first_battery_wins() {
    let t = telemetry_from_readings(&vec![], &vec![battery(f("40\n")), battery(f("90\n"))]);
    assert_eq!(t.battery.unwrap().percent, Percent::new(40).unwrap());
}

#[test]
fn malformed_battery_health_degrades_to_none() {
    let mut b = battery(f("80\n"));
    b.status = f("Discharging\n");
    b.charge_full = f("garbage\n");
    b.charge_full_design = f("5675000\n");
    let t = telemetry_from_readings(&vec![], &vec![b]);
    assert_eq!(t.gap(TelemetryField::Battery), None);
    let bat = t.battery.unwrap();
    assert_eq!(bat.percent, Percent::new(80).unwrap());
    assert_eq!(bat.state, "Discharging");
    assert_eq!(bat.capacity, None);
}
