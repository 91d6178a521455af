use orbis_providers::error::{IoErrorKind, IoFailure, ProviderError};
use orbis_providers::keyboard_backlight::{map_led_error, AsusKeyboardBacklightProvider};

const DIR: &str = "/tmp/kbd-fixture";

fn ok(s: &str) -> Result<String, IoFailure> {
    Ok(s.to_string())
}

fn led_failure(kind: IoErrorKind, message: &str) -> IoFailure {
    IoFailure { kind, raw_os_error: None, message: message.into() }
}

#[test]
fn reads_valid_level() {
    let provider = AsusKeyboardBacklightProvider::new(DIR);
    let state = provider.keyboard_backlight_state(&ok("3\n"), &ok("3\n")).unwrap();
    assert_eq!(state.current.get(), 3);
    assert_eq!(state.max.get(), 3);
}

#[test]
fn reads_zero_level() {
    let provider = AsusKeyboardBacklightProvider::new(DIR);
    let state = provider.keyboard_backlight_state(&ok("0\n"), &ok("3\n")).unwrap();
    assert_eq!(state.current.get(), 0);
    assert_eq!(state.max.get(), 3);
}

#[test]
fn device_missing_is_unsupported() {
    let provider = AsusKeyboardBacklightProvider::new(DIR);
    let missing = Err(led_failure(IoErrorKind::NotFound, "No such file or directory (os error 2)"));
    let error = provider.keyboard_backlight_state(&missing, &missing).expect_err("missing device");
    assert!(matches!(error, ProviderError::Unsupported(_)));
}

#[test]
fn malformed_brightness_is_internal() {
    let provider = AsusKeyboardBacklightProvider::new(DIR);
    let error = provider.keyboard_backlight_state(&ok("abc\n"), &ok("3\n")).expect_err("malformed brightness");
    assert!(matches!(error, ProviderError::Internal(_)));
}

#[test]
fn malformed_max_is_internal() {
    let provider = AsusKeyboardBacklightProvider::new(DIR);
    let error = provider.keyboard_backlight_state(&ok("0\n"), &ok("xyz\n")).expect_err("malformed max");
    assert!(matches!(error, ProviderError::Internal(_)));
}

#[test]
fn current_exceeding_max_is_internal() {
    let provider = AsusKeyboardBacklightProvider::new(DIR);
    let error = provider.keyboard_backlight_state(&ok("5\n"), &ok("3\n")).expect_err("current > max");
    assert!(matches!(error, ProviderError::Internal(_)), "expected Internal for current>max");
    assert_eq!(error, ProviderError::Internal("asus kbd_backlight: current (5) > max (3)".into()));
}

#[test]
fn empty_brightness_is_internal() {
    let provider = AsusKeyboardBacklightProvider::new(DIR);
    let error = provider.keyboard_backlight_state(&ok("\n"), &ok("3\n")).expect_err("empty brightness");
    assert!(matches!(error, ProviderError::Internal(_)));
}

#[test]
fn fresh_reads_not_cached() {
    let provider = AsusKeyboardBacklightProvider::new(DIR);
    let state1 = provider.keyboard_backlight_state(&ok("1\n"), &ok("3\n")).unwrap();
    assert_eq!(state1.current.get(), 1);
    let state2 = provider.keyboard_backlight_state(&ok("2\n"), &ok("3\n")).unwrap();
    assert_eq!(state2.current.get(), 2);
}

#[test]
fn permission_denied_is_preserved() {
    let provider = AsusKeyboardBacklightProvider::new(DIR);
    let path = provider.brightness_path();
    let error = map_led_error(&path, led_failure(IoErrorKind::PermissionDenied, "denied"));
    assert!(matches!(error, ProviderError::PermissionDenied(_)));
}

#[test]
fn transient_io_error_is_preserved() {
    let provider = AsusKeyboardBacklightProvider::new(DIR);
    let path = provider.brightness_path();
    let error = map_led_error(&path, led_failure(IoErrorKind::Other, "temporary"));
    assert!(matches!(error, ProviderError::Io(_)));
}

#[test]
fn level_paths_are_below_the_led_directory() {
    let provider = AsusKeyboardBacklightProvider::new(DIR);
    assert_eq!(provider.brightness_path(), "/tmp/kbd-fixture/brightness");
    assert_eq!(provider.max_brightness_path(), "/tmp/kbd-fixture/max_brightness");
}

#[test]
fn level_beyond_a_byte_is_internal() {
    let provider = AsusKeyboardBacklightProvider::new(DIR);
    let error = provider.keyboard_backlight_state(&ok("300\n"), &ok("300\n")).expect_err("max beyond a byte");
    assert_eq!(error, ProviderError::Internal("asus kbd_backlight: max_brightness (300) exceeds 255".into()));
    let state = provider.keyboard_backlight_state(&ok("255\n"), &ok("255\n")).unwrap();
    assert_eq!(state.current.get(), 255);
    assert_eq!(state.max.get(), 255);
}
