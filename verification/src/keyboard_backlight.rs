//! Read-only ASUS keyboard backlight brightness.
//!
//! Authority: the kernel LED class `/sys/class/leds/asus::kbd_backlight/`
//! with `brightness` (current hardware level) and `max_brightness` (maximum
//! level, always read, never assumed). A missing LED device is unsupported,
//! malformed values are internal errors (never a default), and a current
//! level above the maximum is an inconsistency.
use vstd::prelude::*;
use vstd::string::*;

use crate::diagnostics::DiagnosticEntry;
use crate::error::{IoErrorKind, IoFailure, IoFailureView, ProviderError, ProviderErrorView};
use crate::paths::{join, join_path};
use crate::text::{
    chars_of, concat2, debug_str, debug_text, decimal, int_error_text, parse_unsigned, parse_unsigned_at,
    to_decimal, trim, trimmed,
};

verus! {

/// Fixed production path of the kernel LED class device.
pub const ASUS_KBD_BACKLIGHT_DIR: &'static str = "/sys/class/leds/asus::kbd_backlight";

/// A keyboard brightness level.
#[derive(Debug, Clone, Copy, PartialEq, Eq, Structural)]
pub struct KeyboardBrightnessLevel(u8);

impl KeyboardBrightnessLevel {
    /// A level.
    pub fn new(level: u8) -> (l: Self)
        ensures
            l.get_spec() == level,
    {
        KeyboardBrightnessLevel(level)
    }

    /// The level.
    pub closed spec fn get_spec(self) -> u8 {
        self.0
    }

    /// The level.
    pub fn get(&self) -> (v: u8)
        ensures
            v == self.get_spec(),
    {
        self.0
    }
}

/// Keyboard backlight state.
#[derive(Debug, Clone, Copy, PartialEq, Eq, Structural)]
pub struct KeyboardBacklightState {
    /// Current level.
    pub current: KeyboardBrightnessLevel,
    /// Maximum level.
    pub max: KeyboardBrightnessLevel,
}

/// Read-only keyboard backlight provider over a kernel LED class directory.
#[derive(Debug, Clone)]
pub struct AsusKeyboardBacklightProvider {
    /// The LED class directory.
    pub led_dir: String,
}

impl AsusKeyboardBacklightProvider {
    /// A provider over the given LED directory.
    pub fn new(led_dir: &str) -> (p: Self)
        ensures
            p.led_dir@ == led_dir@,
    {
        AsusKeyboardBacklightProvider { led_dir: led_dir.to_owned() }
    }

    /// The `brightness` file.
    pub fn brightness_path(&self) -> (p: String)
        ensures
            p@ == join(self.led_dir@, "brightness"@),
    {
        join_path(self.led_dir.as_str(), "brightness")
    }

    /// The `max_brightness` file.
    pub fn max_brightness_path(&self) -> (p: String)
        ensures
            p@ == join(self.led_dir@, "max_brightness"@),
    {
        join_path(self.led_dir.as_str(), "max_brightness")
    }

    /// Provider diagnostics.
    pub fn diagnostics(&self) -> (v: Vec<DiagnosticEntry>)
        ensures
            v@.len() == 1,
            v@[0].key@ == "provider.asus-kbd-backlight"@,
            v@[0].value@ == "read-only kernel LED class keyboard backlight backend"@,
    {
        let mut v = Vec::new();
        v.push(
            DiagnosticEntry::new(
                "provider.asus-kbd-backlight",
                "read-only kernel LED class keyboard backlight backend",
            ),
        );
        v
    }
}

impl Default for AsusKeyboardBacklightProvider {
    /// The production LED directory.
    fn default() -> (p: Self)
        ensures
            p.led_dir@ == ASUS_KBD_BACKLIGHT_DIR@,
    {
        AsusKeyboardBacklightProvider { led_dir: ASUS_KBD_BACKLIGHT_DIR.to_owned() }
    }
}

/// The error of a failed LED read: a missing file proves the device is
/// absent, a refused read stays a permission failure, other failures are I/O
/// errors.
pub open spec fn led_error(path: Seq<char>, f: IoFailureView) -> ProviderErrorView {
    if f.kind == IoErrorKind::NotFound {
        ProviderErrorView::Unsupported("asus kbd_backlight LED device absent: "@ + path)
    } else if f.kind == IoErrorKind::PermissionDenied {
        ProviderErrorView::PermissionDenied("asus kbd_backlight read denied: "@ + path)
    } else {
        ProviderErrorView::Io(f)
    }
}

/// Map an LED read failure into a provider error.
pub fn map_led_error(path: &str, failure: IoFailure) -> (e: ProviderError)
    ensures
        e@ == led_error(path@, failure@),
{
    match failure.kind {
        IoErrorKind::NotFound => ProviderError::Unsupported(
            concat2("asus kbd_backlight LED device absent: ", path),
        ),
        IoErrorKind::PermissionDenied => ProviderError::PermissionDenied(
            concat2("asus kbd_backlight read denied: ", path),
        ),
        _ => ProviderError::Io(failure),
    }
}

/// A level file: its trimmed content as `u32`.
pub open spec fn level_value(path: Seq<char>, what: Seq<char>, r: Result<String, IoFailure>) -> Result<
    u32,
    ProviderErrorView,
> {
    match r {
        Err(f) => Err(led_error(path, f@)),
        Ok(raw) => match parse_unsigned(trim(raw@), 10, u32::MAX as nat) {
            Ok(v) => Ok(v as u32),
            Err(k) => Err(
                ProviderErrorView::Internal(
                    "asus kbd_backlight: malformed "@ + what + " "@ + debug_str(trim(raw@)) + ": "@
                        + int_error_text(k),
                ),
            ),
        },
    }
}

fn read_level(path: &str, what: &str, r: &Result<String, IoFailure>) -> (v: Result<u32, ProviderError>)
    ensures
        match level_value(path@, what@, *r) {
            Ok(x) => v == Ok::<u32, ProviderError>(x),
            Err(e) => v matches Err(err) && err@ == e,
        },
{
    match r {
        Err(f) => Err(map_led_error(path, f.clone_failure())),
        Ok(raw) => {
            let t = trimmed(raw.as_str());
            let cs = chars_of(t.as_str());
            assert(cs@.subrange(0, cs@.len() as int) =~= cs@);
            match parse_unsigned_at(&cs, 0, cs.len(), 10, 0xffff_ffff) {
                Ok(x) => Ok(x as u32),
                Err(k) => {
                    let mut m = concat2("asus kbd_backlight: malformed ", what);
                    m.append(" ");
                    let d = debug_text(t.as_str());
                    m.append(d.as_str());
                    m.append(": ");
                    m.append(k.text());
                    Err(ProviderError::Internal(m))
                },
            }
        },
    }
}

/// The backlight state: `max_brightness` is judged first, then
/// `brightness`; a current level above the maximum is an inconsistency, and
/// so is a maximum beyond the 0..=255 range of a brightness level.
pub open spec fn backlight_state(dir: Seq<char>, brightness: Result<String, IoFailure>, max_brightness: Result<String, IoFailure>) -> Result<
    (u8, u8),
    ProviderErrorView,
> {
    match level_value(join(dir, "max_brightness"@), "max_brightness"@, max_brightness) {
        Err(e) => Err(e),
        Ok(max) => match level_value(join(dir, "brightness"@), "brightness"@, brightness) {
            Err(e) => Err(e),
            Ok(current) => if current > max {
                Err(
                    ProviderErrorView::Internal(
                        "asus kbd_backlight: current ("@ + decimal(current as nat) + ") > max ("@ + decimal(
                            max as nat,
                        ) + ")"@,
                    ),
                )
            } else if max > 255 {
                Err(
                    ProviderErrorView::Internal(
                        "asus kbd_backlight: max_brightness ("@ + decimal(max as nat) + ") exceeds 255"@,
                    ),
                )
            } else {
                Ok((current as u8, max as u8))
            },
        },
    }
}

impl AsusKeyboardBacklightProvider {
    /// Judge the two level files.
    pub fn keyboard_backlight_state(
        &self,
        brightness: &Result<String, IoFailure>,
        max_brightness: &Result<String, IoFailure>,
    ) -> (r: Result<KeyboardBacklightState, ProviderError>)
        ensures
            match backlight_state(self.led_dir@, *brightness, *max_brightness) {
                Ok((c, m)) => r matches Ok(s) && s.current.get_spec() == c && s.max.get_spec() == m,
                Err(e) => r matches Err(err) && err@ == e,
            },
    {
        let pm = self.max_brightness_path();
        let max = match read_level(pm.as_str(), "max_brightness", max_brightness) {
            Ok(v) => v,
            Err(e) => {
                return Err(e);
            },
        };
        let pc = self.brightness_path();
        let current = match read_level(pc.as_str(), "brightness", brightness) {
            Ok(v) => v,
            Err(e) => {
                return Err(e);
            },
        };
        if current > max {
            let mut m = concat2("asus kbd_backlight: current (", to_decimal(current as u64).as_str());
            m.append(") > max (");
            let d = to_decimal(max as u64);
            m.append(d.as_str());
            m.append(")");
            return Err(ProviderError::Internal(m));
        }
        if max > 255 {
            let mut m = concat2("asus kbd_backlight: max_brightness (", to_decimal(max as u64).as_str());
            m.append(") exceeds 255");
            return Err(ProviderError::Internal(m));
        }
        Ok(
            KeyboardBacklightState {
                current: KeyboardBrightnessLevel::new(current as u8),
                max: KeyboardBrightnessLevel::new(max as u8),
            },
        )
    }
}

} // verus!
