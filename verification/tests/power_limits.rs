use orbis_providers::asus_armoury_power_limits::{
    map_power_limit_error, ArmouryLimitReadings, ArmouryPowerLimitReadings, AsusArmouryPowerLimitProvider,
};
use orbis_providers::asus_legacy_power::{AsusNbWmiPowerLimitProvider, NbWmiFieldReadings, NbWmiReadings};
use orbis_providers::error::{IoErrorKind, IoFailure, ProviderError, ValidationResult};
use orbis_providers::limits::PowerLimitField;

type F = Result<String, IoFailure>;

fn file(s: &str) -> F {
    Ok(s.to_string())
}

fn absent_file() -> F {
    Err(IoFailure { kind: IoErrorKind::NotFound, raw_os_error: Some(2), message: "No such file".into() })
}

fn armoury_limit(current: &str, min: &str, kind: &str, default: Option<&str>) -> ArmouryLimitReadings {
    ArmouryLimitReadings {
        current_value: file(current),
        min_value: file(min),
        max_value: file("80"),
        attribute_type: file(kind),
        default_value: match default {
            Some(d) => file(d),
            None => absent_file(),
        },
    }
}

fn armoury(current: &str, min: &str, kind: &str, default: Option<&str>) -> ArmouryPowerLimitReadings {
    ArmouryPowerLimitReadings {
        spl: armoury_limit(current, min, kind, default),
        sppt: armoury_limit(current, min, kind, default),
        fppt: armoury_limit(current, min, kind, default),
    }
}

fn absent_limit() -> ArmouryLimitReadings {
    ArmouryLimitReadings {
        current_value: absent_file(),
        min_value: absent_file(),
        max_value: absent_file(),
        attribute_type: absent_file(),
        default_value: absent_file(),
    }
}

#[test]
fn valid_fixture_reads_all_three_cpu_package_limits() {
    let provider = AsusArmouryPowerLimitProvider::new("/tmp/root");
    let limits = provider.power_limits_from(&armoury("5", "5", "integer", Some("45"))).unwrap();
    assert_eq!(limits.fields.len(), 3);
    assert_eq!(limits.get(&PowerLimitField::Spl).unwrap().value, 5);
    assert_eq!(limits.get(&PowerLimitField::Sppt).unwrap().min, 5);
    assert_eq!(limits.get(&PowerLimitField::Fppt).unwrap().default, Some(45));
}

#[test]
fn absent_attribute_is_unsupported() {
    let provider = AsusArmouryPowerLimitProvider::new("/tmp/root");
    let r = ArmouryPowerLimitReadings { spl: absent_limit(), sppt: absent_limit(), fppt: absent_limit() };
    let error = provider.power_limits_from(&r).unwrap_err();
    assert!(matches!(error, ProviderError::Unsupported(_)));
}

#[test]
fn enodev_is_transient_backend_unavailable() {
    let error = map_power_limit_error(
        "/tmp/root/current_value",
        IoFailure { kind: IoErrorKind::Other, raw_os_error: Some(19), message: "No such device".into() },
    );
    assert!(matches!(error, ProviderError::BackendUnavailable(_)));
}

#[test]
fn malformed_or_inconsistent_metadata_is_internal() {
    let provider = AsusArmouryPowerLimitProvider::new("/tmp/root");
    let error = provider.power_limits_from(&armoury("5", "10", "string", Some("100"))).unwrap_err();
    assert!(matches!(error, ProviderError::Internal(_)));
}

#[test]
fn capability_constraints_are_read_only_and_writes_rejected() {
    let provider = AsusArmouryPowerLimitProvider::new("/tmp/root");
    let limits = provider.power_limits_from(&armoury("5", "5", "integer", None)).unwrap();
    assert!(matches!(provider.set_power_limit(PowerLimitField::Spl, 10), Err(ProviderError::Unsupported(_))));
    assert!(matches!(provider.restore_defaults(), Err(ProviderError::Unsupported(_))));
    assert!(matches!(provider.validate_power_limit(&PowerLimitField::Spl, 10), ValidationResult::Invalid(_)));
    assert_eq!(limits.fields.len(), 3);
}

#[test]
fn attribute_directories_follow_firmware_names() {
    let provider = AsusArmouryPowerLimitProvider::new("/tmp/root");
    assert_eq!(
        provider.attribute_dir(PowerLimitField::Sppt),
        "/tmp/root/class/firmware-attributes/asus-armoury/attributes/ppt_pl2_sppt"
    );
}

fn nb_field(current: F, min: F, max: F, step: F, default: F) -> NbWmiFieldReadings {
    NbWmiFieldReadings { current, min_value: min, max_value: max, scalar_increment: step, default_value: default }
}

fn nb_absent() -> NbWmiFieldReadings {
    nb_field(absent_file(), absent_file(), absent_file(), absent_file(), absent_file())
}

#[test]
fn current_without_metadata_is_not_advertised() {
    let r = NbWmiReadings {
        spl: nb_field(file("5\n"), absent_file(), absent_file(), absent_file(), absent_file()),
        sppt: nb_absent(),
        fppt: nb_absent(),
    };
    let result = AsusNbWmiPowerLimitProvider::with_root("/tmp/nb").power_limits_from(&r);
    assert!(matches!(result, Err(ProviderError::Unsupported(_))));
}

#[test]
fn complete_metadata_is_typed() {
    let r = NbWmiReadings {
        spl: nb_field(file("45\n"), file("20\n"), file("80\n"), file("5\n"), file("45\n")),
        sppt: nb_absent(),
        fppt: nb_absent(),
    };
    let limits = AsusNbWmiPowerLimitProvider::with_root("/tmp/nb").power_limits_from(&r).unwrap();
    assert_eq!(limits.get(&PowerLimitField::Spl).unwrap().value, 45);
    assert_eq!(limits.fields.len(), 1);
}

#[test]
fn nb_wmi_writes_are_rejected() {
    let provider = AsusNbWmiPowerLimitProvider::with_root("/tmp/nb");
    assert!(matches!(provider.set_power_limit(PowerLimitField::Spl, 10), Err(ProviderError::Unsupported(_))));
    assert!(matches!(provider.restore_defaults(), Err(ProviderError::Unsupported(_))));
}
