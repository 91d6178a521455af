use orbis_providers::asus_armoury_power_limits::AsusArmouryPowerLimitProvider;
use orbis_providers::lact_telemetry::LactTelemetryProvider;
use orbis_providers::linux_memory::LinuxSystemMemoryProvider;
use orbis_providers::sysfs_telemetry::SysfsTelemetryProvider;
use orbis_providers::asus_armoury::{
    AsusArmouryPanelOverdriveProvider, PanelOverdriveState, ASUS_ARMOURY_PANEL_OVERDRIVE_RELATIVE_PATH,
};
use orbis_providers::asus_boot_sound::{AsusBootSoundProvider, BootSoundState, ASUS_ARMOURY_BOOT_SOUND_RELATIVE_PATH};
use orbis_providers::asus_legacy_power::{AsusNbWmiPowerLimitProvider, ASUS_NB_WMI_ROOT};
use orbis_providers::aura::{AsusAuraProvider, ASUS_AURA_DESTINATION, ASUS_AURA_INTERFACE, ASUS_AURA_PATH};
use orbis_providers::error::{IoErrorKind, IoFailure, ProviderError};
use orbis_providers::keyboard_backlight::{AsusKeyboardBacklightProvider, ASUS_KBD_BACKLIGHT_DIR};

fn failure(kind: IoErrorKind) -> IoFailure {
    IoFailure { kind, raw_os_error: None, message: "failure".into() }
}

#[test]
fn production_constants_are_fixed() {
    assert_eq!(ASUS_AURA_DESTINATION, "xyz.ljones.Asusd");
    assert_eq!(ASUS_AURA_PATH, "/xyz/ljones/aura/tuf");
    assert_eq!(ASUS_AURA_INTERFACE, "xyz.ljones.Aura");
    let p = AsusAuraProvider::new();
    assert_eq!(p.destination, "xyz.ljones.Asusd");
    assert_eq!(p.path, "/xyz/ljones/aura/tuf");
    assert_eq!(p.interface, "xyz.ljones.Aura");
}

#[test]
fn asus_legacy_power_production_path_is_fixed() {
    assert_eq!(ASUS_NB_WMI_ROOT, "/sys/devices/platform/asus-nb-wmi");
    assert_eq!(AsusNbWmiPowerLimitProvider::new().root, "/sys/devices/platform/asus-nb-wmi");
}

#[test]
fn keyboard_backlight_production_path_is_fixed() {
    assert_eq!(ASUS_KBD_BACKLIGHT_DIR, "/sys/class/leds/asus::kbd_backlight");
    assert_eq!(AsusKeyboardBacklightProvider::default().led_dir, "/sys/class/leds/asus::kbd_backlight");
}

#[test]
fn provider_has_no_write_surface() {
    // The provider is built only from a root path and answers only with the
    // state read from the attribute: it holds no handle to write through.
    let provider = AsusBootSoundProvider::new("/fixture");
    assert_eq!(
        provider.current_value_path(),
        format!("/fixture/{}", ASUS_ARMOURY_BOOT_SOUND_RELATIVE_PATH)
    );
    assert_eq!(provider.boot_sound_state(&Ok("1\n".into())).unwrap(), BootSoundState::Enabled);
    assert_eq!(provider.diagnostics()[0].value, "read-only kernel asus-armoury boot_sound backend");
}

#[test]
fn reads_boolean_kernel_state_strictly() {
    let provider = AsusBootSoundProvider::new("/root");
    assert_eq!(provider.boot_sound_state(&Ok("1\n".into())).unwrap(), BootSoundState::Enabled);
    assert_eq!(provider.boot_sound_state(&Ok("0\n".into())).unwrap(), BootSoundState::Disabled);
    assert!(matches!(provider.boot_sound_state(&Ok("2\n".into())), Err(ProviderError::Internal(_))));
    assert_eq!(
        provider.boot_sound_state(&Ok("2\n".into())),
        Err(ProviderError::Internal("asus-armoury boot_sound value outside boolean ABI: 2".into()))
    );
}

#[test]
fn missing_attribute_is_unsupported_not_disabled() {
    let provider = AsusBootSoundProvider::new("/root");
    assert!(matches!(
        provider.boot_sound_state(&Err(failure(IoErrorKind::NotFound))),
        Err(ProviderError::Unsupported(_))
    ));
}

#[test]
fn boot_sound_malformed_value_names_the_parse_error() {
    let provider = AsusBootSoundProvider::new("/root");
    assert_eq!(
        provider.boot_sound_state(&Ok("yes\n".into())),
        Err(ProviderError::Internal("asus-armoury boot_sound malformed value \"yes\": invalid digit found in string".into()))
    );
    assert!(matches!(
        provider.boot_sound_state(&Err(failure(IoErrorKind::PermissionDenied))),
        Err(ProviderError::PermissionDenied(_))
    ));
}

#[test]
fn reads_zero_as_disabled() {
    let provider = AsusArmouryPanelOverdriveProvider::new("/root");
    assert_eq!(provider.panel_overdrive_state(&Ok("0\n".into())).unwrap(), PanelOverdriveState::Disabled);
}

#[test]
fn reads_one_as_enabled() {
    let provider = AsusArmouryPanelOverdriveProvider::new("/root");
    assert_eq!(provider.panel_overdrive_state(&Ok("1\n".into())).unwrap(), PanelOverdriveState::Enabled);
}

#[test]
fn malformed_value_is_internal_not_fake_default() {
    let provider = AsusArmouryPanelOverdriveProvider::new("/root");
    assert_eq!(
        provider.panel_overdrive_state(&Ok("2\n".into())),
        Err(ProviderError::Internal("asus-armoury panel_overdrive malformed value: \"2\"".into()))
    );
    for malformed in ["2\n", "true\n", "abc\n", "\n", ""] {
        let error = provider.panel_overdrive_state(&Ok(malformed.into())).expect_err("malformed");
        assert!(
            matches!(error, ProviderError::Internal(_)),
            "malformed {malformed:?} must be Internal, got {error:?}"
        );
    }
}

#[test]
fn disabled_is_not_unknown() {
    let provider = AsusArmouryPanelOverdriveProvider::new("/root");
    let state = provider.panel_overdrive_state(&Ok("0\n".into())).unwrap();
    assert_eq!(state, PanelOverdriveState::Disabled);
    assert_ne!(state, PanelOverdriveState::Unknown);
}

#[test]
fn reads_are_fresh_not_cached() {
    let provider = AsusArmouryPanelOverdriveProvider::new("/root");
    assert_eq!(provider.panel_overdrive_state(&Ok("0\n".into())).unwrap(), PanelOverdriveState::Disabled);
    assert_eq!(provider.panel_overdrive_state(&Ok("1\n".into())).unwrap(), PanelOverdriveState::Enabled);
}

#[test]
fn missing_attribute_is_unsupported() {
    let provider = AsusArmouryPanelOverdriveProvider::new("/root");
    assert_eq!(
        provider.panel_overdrive_state(&Err(failure(IoErrorKind::NotFound))),
        Err(ProviderError::Unsupported(format!(
            "asus-armoury panel_overdrive attribute absent: /root/{}",
            ASUS_ARMOURY_PANEL_OVERDRIVE_RELATIVE_PATH
        )))
    );
}

#[test]
fn permission_denied_is_preserved_separate_from_unsupported() {
    let provider = AsusArmouryPanelOverdriveProvider::new("/root");
    assert!(matches!(
        provider.panel_overdrive_state(&Err(failure(IoErrorKind::PermissionDenied))),
        Err(ProviderError::PermissionDenied(_))
    ));
}

#[test]
fn other_io_errors_stay_io() {
    let provider = AsusArmouryPanelOverdriveProvider::new("/root");
    assert_eq!(
        provider.panel_overdrive_state(&Err(failure(IoErrorKind::Other))),
        Err(ProviderError::Io(failure(IoErrorKind::Other)))
    );
}

#[test]
fn production_relative_path_is_fixed() {
    assert_eq!(
        ASUS_ARMOURY_PANEL_OVERDRIVE_RELATIVE_PATH,
        "class/firmware-attributes/asus-armoury/attributes/panel_overdrive/current_value"
    );
}

#[test]
fn provider_diagnostics_describe_read_only_backends() {
    let d = SysfsTelemetryProvider::new("/sys").diagnostics();
    assert_eq!(d[0].key, "provider.sysfs-telemetry");
    let d = LinuxSystemMemoryProvider::new().diagnostics();
    assert_eq!(d[0].value, "read-only /proc and /sys memory telemetry");
    let d = AsusNbWmiPowerLimitProvider::new().diagnostics();
    assert_eq!(d[0].key, "provider.asus-nb-wmi-power-limits");
    let d = AsusArmouryPowerLimitProvider::new("/sys").diagnostics();
    assert_eq!(d[0].key, "provider.asus-armoury-cpu-package-limits");
    let d = LactTelemetryProvider::new().diagnostics();
    assert_eq!(d[0].value, "optional read-only lactd JSON socket; config discovery path /etc/lact/config.yaml");
}
