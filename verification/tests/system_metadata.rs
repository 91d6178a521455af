use std::cell::RefCell;
use std::collections::HashMap;

use orbis_providers::hardware_identity::{
    identity_from_lookup, HardwareDiagnostics, BIOS_DATE_PATH, BIOS_VERSION_PATH, BOARD_NAME_PATH, PRODUCT_NAME_PATH,
    SYS_VENDOR_PATH,
};
use orbis_providers::system_metadata::{
    classify_display_protocol, classify_session_type, normalized_value, system_diagnostics_from, DisplayProtocol,
    SessionEnvironment, SessionType, SystemMetadataProvider,
};

fn session(xdg: Option<&str>, wayland: Option<&str>, display: Option<&str>) -> SessionEnvironment {
    SessionEnvironment::from_values(xdg.map(str::to_owned), wayland.map(str::to_owned), display.map(str::to_owned))
}

#[test]
fn exact_kernel_and_architecture_values_are_preserved_after_trimming() {
    let metadata =
        system_diagnostics_from(Some(" 6.12.7-orbis\n".into()), Some(" x86_64 ".into()), &SessionEnvironment::empty());
    assert_eq!(metadata.kernel_release.as_deref(), Some("6.12.7-orbis"));
    assert_eq!(metadata.architecture.as_deref(), Some("x86_64"));
    assert!(metadata.compositor.is_none());
}

#[test]
fn recognized_session_types_are_normalized() {
    let wayland = session(Some(" WAYLAND "), None, None);
    let x11 = session(Some("X11"), None, None);
    let tty = session(Some("tty"), None, None);
    assert_eq!(classify_session_type(&wayland), SessionType::Wayland);
    assert_eq!(classify_display_protocol(&wayland), DisplayProtocol::Wayland);
    assert_eq!(classify_session_type(&x11), SessionType::X11);
    assert_eq!(classify_display_protocol(&x11), DisplayProtocol::X11);
    assert_eq!(classify_session_type(&tty), SessionType::Tty);
    assert_eq!(classify_display_protocol(&tty), DisplayProtocol::Unknown);
}

#[test]
fn missing_session_type_uses_display_evidence() {
    let wayland = session(None, Some("wayland-0"), Some(":0"));
    let x11 = session(None, None, Some(":0"));
    assert_eq!(classify_session_type(&wayland), SessionType::Wayland);
    assert_eq!(classify_display_protocol(&wayland), DisplayProtocol::Wayland);
    assert_eq!(classify_session_type(&x11), SessionType::X11);
    assert_eq!(classify_display_protocol(&x11), DisplayProtocol::X11);
}

#[test]
fn unrecognized_session_type_is_not_relabelled() {
    let unknown = session(Some("custom-session"), None, None);
    assert_eq!(classify_session_type(&unknown), SessionType::Unknown);
    assert_eq!(classify_display_protocol(&unknown), DisplayProtocol::Unknown);
}

#[test]
fn display_protocol_prefers_explicit_wayland_display_evidence() {
    let mixed = session(Some("x11"), Some("wayland-0"), Some(":0"));
    assert_eq!(classify_session_type(&mixed), SessionType::X11);
    assert_eq!(classify_display_protocol(&mixed), DisplayProtocol::Wayland);
}

#[test]
fn blank_values_become_absent_or_unknown() {
    let environment = SessionEnvironment::from_lookup(|key: &str| match key {
        "XDG_SESSION_TYPE" => Some("   ".into()),
        "WAYLAND_DISPLAY" => Some("\t".into()),
        "DISPLAY" => Some("\n".into()),
        _ => None,
    });
    let metadata = system_diagnostics_from(Some("  ".into()), Some("\t".into()), &environment);
    assert!(metadata.kernel_release.is_none());
    assert!(metadata.architecture.is_none());
    assert_eq!(metadata.session_type, SessionType::Unknown);
    assert_eq!(metadata.display_protocol, DisplayProtocol::Unknown);
    assert!(metadata.compositor.is_none());
}

#[test]
fn environment_access_is_strictly_allowlisted() {
    let queried = RefCell::new(Vec::new());
    let environment = SessionEnvironment::from_lookup(|key: &str| {
        queried.borrow_mut().push(key.to_owned());
        None
    });
    assert_eq!(environment, SessionEnvironment::empty());
    assert_eq!(queried.into_inner(), vec!["XDG_SESSION_TYPE", "WAYLAND_DISPLAY", "DISPLAY"]);
}

#[test]
fn compositor_remains_unknown_without_reliable_source() {
    let environment = session(Some("wayland"), Some("wayland-0"), None);
    let metadata = system_diagnostics_from(None, Some("aarch64".into()), &environment);
    assert!(metadata.compositor.is_none());
}

#[test]
fn provider_snapshot_normalizes_inputs() {
    let metadata = SystemMetadataProvider::new().snapshot(Some("6.1\n".into()), "x86_64", &session(None, None, None));
    assert_eq!(metadata.kernel_release.as_deref(), Some("6.1"));
    assert_eq!(metadata.architecture.as_deref(), Some("x86_64"));
    assert_eq!(normalized_value(Some(" a b ".into())).as_deref(), Some("a b"));
}

fn complete_values() -> HashMap<&'static str, String> {
    HashMap::from([
        (SYS_VENDOR_PATH, " ASUSTeK COMPUTER INC.\n".into()),
        (PRODUCT_NAME_PATH, " ROG Zephyrus G14 ".into()),
        (BOARD_NAME_PATH, " GA403UI\n".into()),
        (BIOS_VERSION_PATH, " GA403UI.310\n".into()),
        (BIOS_DATE_PATH, " 07/18/2026\n".into()),
    ])
}

#[test]
fn complete_identity_is_preserved_after_trimming() {
    let values = complete_values();
    let identity = identity_from_lookup(|path: &str| values.get(path).cloned()).unwrap();
    assert_eq!(identity.vendor, "ASUSTeK COMPUTER INC.");
    assert_eq!(identity.product, "ROG Zephyrus G14");
    assert_eq!(identity.board, "GA403UI");
    assert_eq!(identity.bios_version, "GA403UI.310");
    assert_eq!(identity.bios_date, "07/18/2026");
}

#[test]
fn missing_required_field_keeps_identity_absent() {
    let mut values = complete_values();
    values.remove(BOARD_NAME_PATH);
    assert!(identity_from_lookup(|path: &str| values.get(path).cloned()).is_none());
}

#[test]
fn blank_required_field_keeps_identity_absent() {
    let mut values = complete_values();
    values.insert(BIOS_VERSION_PATH, "   \n".into());
    assert!(identity_from_lookup(|path: &str| values.get(path).cloned()).is_none());
}

#[test]
fn lookup_is_strictly_limited_to_privacy_safe_paths() {
    let queried = RefCell::new(Vec::new());
    let values = complete_values();
    let identity = identity_from_lookup(|path: &str| {
        queried.borrow_mut().push(path.to_owned());
        values.get(path).cloned()
    });
    assert!(identity.is_some());
    assert_eq!(
        queried.into_inner(),
        vec![SYS_VENDOR_PATH, PRODUCT_NAME_PATH, BOARD_NAME_PATH, BIOS_VERSION_PATH, BIOS_DATE_PATH]
    );
}

#[test]
fn serial_number_is_never_requested() {
    let queried = RefCell::new(Vec::new());
    let values = complete_values();
    let identity = identity_from_lookup(|path: &str| {
        queried.borrow_mut().push(path.to_owned());
        values.get(path).cloned()
    });
    assert!(identity.is_some());
    assert!(queried.into_inner().iter().all(|path| !path.to_ascii_lowercase().contains("serial")));
}

#[test]
fn snapshot_shape_keeps_identity_optional() {
    let values = complete_values();
    let diagnostics = HardwareDiagnostics { identity: identity_from_lookup(|path: &str| values.get(path).cloned()) };
    assert!(diagnostics.identity.is_some());
}
