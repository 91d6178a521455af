use orbis_providers::aura::{
    map_aura_dbus_error, parse_effect, AsusAuraProvider, AuraBrightness, AuraDirection, AuraMode, AuraReadings,
    AuraRgb, AuraSpeed, AuraZone, DbusValue, DbusValueKind, ASUS_AURA_PATH,
};
use orbis_providers::error::{DbusFailure, ProviderError};

fn v(kind: DbusValueKind) -> DbusValue {
    let debug = format!("{kind:?}");
    DbusValue { kind, debug }
}

fn u32v(x: u32) -> DbusValue {
    v(DbusValueKind::U32(x))
}

fn rgb(r: u8, g: u8, b: u8) -> DbusValue {
    v(DbusValueKind::Structure(vec![
        v(DbusValueKind::U8(r)),
        v(DbusValueKind::U8(g)),
        v(DbusValueKind::U8(b)),
    ]))
}

fn effect(c1: (u8, u8, u8), c2: (u8, u8, u8), speed: &str, direction: &str) -> DbusValue {
    v(DbusValueKind::Structure(vec![
        u32v(0),
        u32v(0),
        rgb(c1.0, c1.1, c1.2),
        rgb(c2.0, c2.1, c2.2),
        v(DbusValueKind::Str(speed.into())),
        v(DbusValueKind::Str(direction.into())),
    ]))
}

fn array(xs: &[u32]) -> DbusValue {
    v(DbusValueKind::Array(xs.iter().map(|x| u32v(*x)).collect()))
}

fn readings(mode: DbusValue, data: DbusValue, brightness: u32) -> AuraReadings {
    AuraReadings {
        led_mode: Ok(mode),
        led_mode_data: Ok(data),
        brightness: Ok(u32v(brightness)),
        supported_modes: Ok(array(&[0])),
        supported_zones: Ok(array(&[])),
        supported_brightness: Ok(array(&[0, 1, 2, 3])),
    }
}

fn static_readings() -> AuraReadings {
    readings(u32v(0), effect((0xff, 0x11, 0xdd), (0, 0, 0), "Med", "Right"), 3)
}

#[test]
fn static_mode_read_correctly() {
    let provider = AsusAuraProvider::new();
    let state = provider.aura_state(&static_readings()).expect("state");
    assert_eq!(state.current_mode, AuraMode::Static);
    assert_eq!(state.current_effect.mode, AuraMode::Static);
    assert_eq!(state.current_effect.zone, AuraZone::NoZone);
    assert_eq!(state.current_effect.speed, AuraSpeed::Med);
    assert_eq!(state.current_effect.direction, AuraDirection::Right);
    assert_eq!(state.brightness, AuraBrightness::High);
    assert_eq!(state.supported_modes, vec![AuraMode::Static]);
    assert_eq!(state.supported_zones, Vec::<AuraZone>::new());
    assert_eq!(
        state.supported_brightness,
        vec![AuraBrightness::Off, AuraBrightness::Low, AuraBrightness::Med, AuraBrightness::High]
    );
}

#[test]
fn rgb_preserved_losslessly() {
    let provider = AsusAuraProvider::new();
    let r = readings(u32v(0), effect((0xff, 0x00, 0x7c), (0x9b, 0x26, 0xb6), "Low", "Left"), 2);
    let state = provider.aura_state(&r).expect("state");
    assert_eq!(state.current_effect.colour1, AuraRgb { r: 0xff, g: 0x00, b: 0x7c });
    assert_eq!(state.current_effect.colour2, AuraRgb { r: 0x9b, g: 0x26, b: 0xb6 });
    assert_eq!(state.current_effect.speed, AuraSpeed::Low);
    assert_eq!(state.current_effect.direction, AuraDirection::Left);
    assert_eq!(state.brightness, AuraBrightness::Med);
}

#[test]
fn supported_modes_zero_only() {
    let state = AsusAuraProvider::new().aura_state(&static_readings()).expect("state");
    assert_eq!(state.supported_modes, vec![AuraMode::Static]);
    assert_eq!(state.supported_modes.len(), 1);
}

#[test]
fn empty_zones_is_valid_single_zone_tuf() {
    let state = AsusAuraProvider::new().aura_state(&static_readings()).expect("state");
    assert!(state.supported_zones.is_empty());
}

#[test]
fn missing_aura_interface_is_unsupported() {
    let mut r = static_readings();
    r.led_mode = Err(DbusFailure::MethodError {
        name: "org.freedesktop.DBus.Error.UnknownInterface".into(),
        text: "no such interface".into(),
    });
    let error = AsusAuraProvider::new().aura_state(&r).expect_err("interface absent must error");
    assert!(matches!(error, ProviderError::Unsupported(_)), "expected Unsupported, got {error:?}");

    let mut r = static_readings();
    r.led_mode = Err(DbusFailure::InterfaceNotFound { text: "absent".into() });
    let error = AsusAuraProvider::new().aura_state(&r).expect_err("interface absent must error");
    assert!(matches!(error, ProviderError::Unsupported(_)), "expected Unsupported, got {error:?}");
}

#[test]
fn malformed_led_mode_is_error() {
    let r = readings(
        v(DbusValueKind::Str("Static".into())),
        effect((0, 0, 0), (0, 0, 0), "Med", "Right"),
        3,
    );
    let error = AsusAuraProvider::new().aura_state(&r).expect_err("malformed payload must error");
    assert!(matches!(error, ProviderError::Internal(_)), "expected Internal, got {error:?}");
}

#[test]
fn unknown_wire_values_are_preserved() {
    assert_eq!(AuraMode::from_u32(77), AuraMode::Unknown(77));
    assert_eq!(AuraZone::from_u32(0), AuraZone::NoZone);
    assert_eq!(AuraZone::from_u32(40), AuraZone::Unknown(40));
    assert_eq!(AuraBrightness::from_u32(9), AuraBrightness::Unknown(9));
    assert_eq!(AuraSpeed::from_name("Turbo"), AuraSpeed::Unknown("Turbo".into()));
    assert_eq!(AuraDirection::from_name("Down"), AuraDirection::Down);
}

#[test]
fn malformed_colour_is_an_internal_error() {
    let bad = v(DbusValueKind::Structure(vec![
        u32v(0),
        u32v(0),
        v(DbusValueKind::Structure(vec![v(DbusValueKind::U8(1)), v(DbusValueKind::U8(2))])),
        rgb(0, 0, 0),
        v(DbusValueKind::Str("Med".into())),
        v(DbusValueKind::Str("Right".into())),
    ]));
    match parse_effect(&bad) {
        Err(ProviderError::Internal(m)) => {
            assert_eq!(m, "asus aura: led_mode_data malformed: colour1 expected 3 fields, got 2")
        }
        other => panic!("unexpected {other:?}"),
    }
}

#[test]
fn dbus_errors_keep_their_meaning() {
    let absent = DbusFailure::MethodError {
        name: "org.freedesktop.DBus.Error.ServiceUnknown".into(),
        text: "gone".into(),
    };
    assert_eq!(
        map_aura_dbus_error(ASUS_AURA_PATH, &absent),
        ProviderError::BackendUnavailable("asus aura: service absent: xyz.ljones.Asusd".into())
    );
    let denied = DbusFailure::MethodError {
        name: "org.freedesktop.DBus.Error.AccessDenied".into(),
        text: "no".into(),
    };
    assert_eq!(
        map_aura_dbus_error(ASUS_AURA_PATH, &denied),
        ProviderError::PermissionDenied("asus aura: read denied on /xyz/ljones/aura/tuf".into())
    );
    let other = DbusFailure::Other { text: "broken pipe".into() };
    assert_eq!(map_aura_dbus_error(ASUS_AURA_PATH, &other), ProviderError::Dbus("broken pipe".into()));
}
