use orbis_providers::error::{DbusFailure, ProviderError};
use orbis_providers::fan_defaults::{
    dbus_error, mock_reset_fan_curves_to_defaults, AsusdFanProfile, Hardware1FanDefaultsProvider,
    HARDWARE1_INTERFACE, HARDWARE1_PATH, HARDWARE1_SERVICE,
};
use orbis_providers::mock::ApplyResult;

fn fdo(name: &str, message: &str) -> DbusFailure {
    DbusFailure::Fdo { name: name.into(), message: message.into(), text: format!("{name}: {message}") }
}

#[test]
fn hardware1_address_is_fixed() {
    assert_eq!(HARDWARE1_SERVICE, "io.github.orbiscontrol.Hardware");
    assert_eq!(HARDWARE1_PATH, "/io/github/orbiscontrol/Hardware");
    assert_eq!(HARDWARE1_INTERFACE, "io.github.orbiscontrol.Hardware1");
}

#[test]
fn profile_wire_values_follow_asusd() {
    assert_eq!(AsusdFanProfile::Balanced.wire(), 0);
    assert_eq!(AsusdFanProfile::Performance.wire(), 1);
    assert_eq!(AsusdFanProfile::Quiet.wire(), 2);
    assert_eq!(AsusdFanProfile::LowPower.wire(), 3);
}

#[test]
fn confirmed_profile_is_applied() {
    let p = Hardware1FanDefaultsProvider::new();
    assert_eq!(p.reset_fan_curves_to_defaults(AsusdFanProfile::Quiet, &Ok(2)), Ok(ApplyResult::Applied));
}

#[test]
fn other_confirmed_profile_is_internal_error() {
    let p = Hardware1FanDefaultsProvider::new();
    assert_eq!(
        p.reset_fan_curves_to_defaults(AsusdFanProfile::Performance, &Ok(0)),
        Err(ProviderError::Internal(
            "Hardware1 confirmed another fan profile after factory reset: requested=1, confirmed=0".into()
        ))
    );
}

#[test]
fn standard_replies_map_to_typed_errors() {
    assert_eq!(
        dbus_error(&fdo("org.freedesktop.DBus.Error.NotSupported", "no curves")),
        ProviderError::Unsupported("no curves".into())
    );
    assert_eq!(
        dbus_error(&fdo("org.freedesktop.DBus.Error.AccessDenied", "polkit")),
        ProviderError::PermissionDenied("polkit".into())
    );
    assert_eq!(
        dbus_error(&fdo("org.freedesktop.DBus.Error.InvalidArgs", "bad profile")),
        ProviderError::InvalidRequest("bad profile".into())
    );
    assert_eq!(
        dbus_error(&fdo("org.freedesktop.DBus.Error.Failed", "boom")),
        ProviderError::Dbus("org.freedesktop.DBus.Error.Failed: boom".into())
    );
    assert_eq!(dbus_error(&DbusFailure::Other { text: "closed".into() }), ProviderError::Dbus("closed".into()));
    let p = Hardware1FanDefaultsProvider::new();
    assert_eq!(
        p.reset_fan_curves_to_defaults(
            AsusdFanProfile::Balanced,
            &Err(fdo("org.freedesktop.DBus.Error.AccessDenied", "polkit"))
        ),
        Err(ProviderError::PermissionDenied("polkit".into()))
    );
}

#[test]
fn mock_backend_does_not_claim_factory_defaults() {
    assert_eq!(
        mock_reset_fan_curves_to_defaults(AsusdFanProfile::Balanced),
        Err(ProviderError::Unsupported("mock backend does not model lossless ASUS factory fan defaults".into()))
    );
}
