use orbis_providers::cpu_frequency::{CpuFrequencyReadings, SysfsCpuFrequencyProvider};
use orbis_providers::error::{IoErrorKind, IoFailure, ProviderError};

fn cpufreq_readings(driver: &str, available: &str, current: &str, boost: &str) -> CpuFrequencyReadings {
    CpuFrequencyReadings {
        scaling_driver: Ok(driver.into()),
        available_preferences: Ok(available.into()),
        preference: Ok(current.into()),
        boost: Ok(boost.into()),
    }
}

fn missing() -> IoFailure {
    IoFailure { kind: IoErrorKind::NotFound, raw_os_error: Some(2), message: "missing".into() }
}

#[test]
fn reads_amd_pstate_epp_evidence_without_writes() {
    let r = cpufreq_readings("amd-pstate-epp", "default performance power", "power", "0");
    let value = SysfsCpuFrequencyProvider::new("/tmp/root").cpu_frequency(&r).unwrap();
    assert_eq!(value.driver, "amd-pstate-epp");
    assert_eq!(value.available_epp_preferences, ["default", "performance", "power"]);
    assert_eq!(value.current_epp_preference, "power");
    assert!(!value.boost);
}

#[test]
fn malformed_boost_is_internal_error() {
    let r = cpufreq_readings("amd-pstate-epp", "power", "power", "maybe");
    assert!(matches!(
        SysfsCpuFrequencyProvider::new("/tmp/root").cpu_frequency(&r),
        Err(ProviderError::Internal(_))
    ));
}

#[test]
fn absent_policy_is_unsupported() {
    let r = CpuFrequencyReadings {
        scaling_driver: Err(missing()),
        available_preferences: Err(missing()),
        preference: Err(missing()),
        boost: Err(missing()),
    };
    assert!(matches!(
        SysfsCpuFrequencyProvider::new("/tmp/root").cpu_frequency(&r),
        Err(ProviderError::Unsupported(_))
    ));
}

#[test]
fn boost_one_is_enabled_and_paths_are_rooted() {
    let r = cpufreq_readings("acpi-cpufreq", "performance", "performance", "1\n");
    let provider = SysfsCpuFrequencyProvider::new("/tmp/root");
    assert!(provider.cpu_frequency(&r).unwrap().boost);
    assert_eq!(provider.path("boost"), "/tmp/root/devices/system/cpu/cpu0/cpufreq/boost");
}
