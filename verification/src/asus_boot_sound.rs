//! Read-only ASUS boot sound state from the kernel asus-armoury attribute.
//!
//! The attribute is a strict boolean (`0` or `1`); a missing attribute is
//! unsupported (never "disabled"), and any other value is an internal error.
//! Nothing is written.
use vstd::prelude::*;
use vstd::string::*;

use crate::diagnostics::DiagnosticEntry;
use crate::error::{IoErrorKind, IoFailure, IoFailureView, ProviderError, ProviderErrorView};
use crate::paths::{join, join_path};
use crate::text::{
    chars_of, concat2, debug_str, debug_text, decimal, int_error_text, parse_unsigned, parse_unsigned_at,
    to_decimal, trim, trimmed,
};

verus! {

/// The attribute below the sysfs root.
pub const ASUS_ARMOURY_BOOT_SOUND_RELATIVE_PATH: &'static str =
    "class/firmware-attributes/asus-armoury/attributes/boot_sound/current_value";

/// Boot sound state.
#[derive(Debug, Clone, Copy, PartialEq, Eq, Structural)]
pub enum BootSoundState {
    /// Kernel value 1.
    Enabled,
    /// Kernel value 0.
    Disabled,
}

/// The state of a kernel value, when it is a boolean.
pub open spec fn boot_sound_of(v: u32) -> Option<BootSoundState> {
    if v == 1 {
        Some(BootSoundState::Enabled)
    } else if v == 0 {
        Some(BootSoundState::Disabled)
    } else {
        None
    }
}

impl BootSoundState {
    /// The state of a kernel value, when it is `0` or `1`.
    pub fn from_kernel_value(v: u32) -> (s: Option<Self>)
        ensures
            s == boot_sound_of(v),
    {
        if v == 1 {
            Some(BootSoundState::Enabled)
        } else if v == 0 {
            Some(BootSoundState::Disabled)
        } else {
            None
        }
    }
}

/// The error of a failed read.
pub open spec fn boot_sound_read_error(path: Seq<char>, f: IoFailureView) -> ProviderErrorView {
    if f.kind == IoErrorKind::NotFound {
        ProviderErrorView::Unsupported("asus-armoury boot_sound attribute absent: "@ + path)
    } else if f.kind == IoErrorKind::PermissionDenied {
        ProviderErrorView::PermissionDenied("asus-armoury boot_sound read denied: "@ + path)
    } else {
        ProviderErrorView::Io(f)
    }
}

/// The state from the attribute read.
pub open spec fn boot_sound_state_of(path: Seq<char>, r: Result<String, IoFailure>) -> Result<
    BootSoundState,
    ProviderErrorView,
> {
    match r {
        Err(f) => Err(boot_sound_read_error(path, f@)),
        Ok(raw) => match parse_unsigned(trim(raw@), 10, u32::MAX as nat) {
            Err(k) => Err(
                ProviderErrorView::Internal(
                    "asus-armoury boot_sound malformed value "@ + debug_str(trim(raw@)) + ": "@
                        + int_error_text(k),
                ),
            ),
            Ok(v) => match boot_sound_of(v as u32) {
                Some(s) => Ok(s),
                None => Err(
                    ProviderErrorView::Internal(
                        "asus-armoury boot_sound value outside boolean ABI: "@ + decimal(v),
                    ),
                ),
            },
        },
    }
}

/// Read-only boot sound provider over a sysfs root.
#[derive(Debug, Clone)]
pub struct AsusBootSoundProvider {
    /// The sysfs root.
    pub sysfs_root: String,
}

impl AsusBootSoundProvider {
    /// A provider over `sysfs_root`.
    pub fn new(sysfs_root: &str) -> (p: Self)
        ensures
            p.sysfs_root@ == sysfs_root@,
    {
        AsusBootSoundProvider { sysfs_root: sysfs_root.to_owned() }
    }

    /// The attribute file.
    pub fn current_value_path(&self) -> (p: String)
        ensures
            p@ == join(self.sysfs_root@, ASUS_ARMOURY_BOOT_SOUND_RELATIVE_PATH@),
    {
        join_path(self.sysfs_root.as_str(), ASUS_ARMOURY_BOOT_SOUND_RELATIVE_PATH)
    }

    /// Provider diagnostics.
    pub fn diagnostics(&self) -> (v: Vec<DiagnosticEntry>)
        ensures
            v@.len() == 1,
            v@[0].key@ == "provider.asus-armoury-boot-sound"@,
            v@[0].value@ == "read-only kernel asus-armoury boot_sound backend"@,
    {
        let mut v = Vec::new();
        v.push(DiagnosticEntry::new("provider.asus-armoury-boot-sound", "read-only kernel asus-armoury boot_sound backend"));
        v
    }

    /// The boot sound state from the attribute the host read.
    pub fn boot_sound_state(&self, current_value: &Result<String, IoFailure>) -> (r: Result<BootSoundState, ProviderError>)
        ensures
            match boot_sound_state_of(join(self.sysfs_root@, ASUS_ARMOURY_BOOT_SOUND_RELATIVE_PATH@), *current_value) {
                Ok(s) => r == Ok::<BootSoundState, ProviderError>(s),
                Err(e) => r matches Err(err) && err@ == e,
            },
    {
        let path = self.current_value_path();
        let raw = match current_value {
            Err(f) => {
                let p = path.as_str();
                return Err(
                    match f.kind {
                        IoErrorKind::NotFound => ProviderError::Unsupported(
                            concat2("asus-armoury boot_sound attribute absent: ", p),
                        ),
                        IoErrorKind::PermissionDenied => ProviderError::PermissionDenied(
                            concat2("asus-armoury boot_sound read denied: ", p),
                        ),
                        _ => ProviderError::Io(f.clone_failure()),
                    },
                );
            },
            Ok(raw) => raw,
        };
        let t = trimmed(raw.as_str());
        let cs = chars_of(t.as_str());
        assert(cs@.subrange(0, cs@.len() as int) =~= cs@);
        let v = match parse_unsigned_at(&cs, 0, cs.len(), 10, 0xffff_ffff) {
            Ok(x) => x as u32,
            Err(k) => {
                let mut m = concat2("asus-armoury boot_sound malformed value ", debug_text(t.as_str()).as_str());
                m.append(": ");
                m.append(k.text());
                return Err(ProviderError::Internal(m));
            },
        };
        match BootSoundState::from_kernel_value(v) {
            Some(s) => Ok(s),
            None => Err(
                ProviderError::Internal(
                    concat2("asus-armoury boot_sound value outside boolean ABI: ", to_decimal(v as u64).as_str()),
                ),
            ),
        }
    }
}

impl Default for AsusBootSoundProvider {
    /// The provider over `/sys`.
    fn default() -> (p: Self)
        ensures
            p.sysfs_root@ == "/sys"@,
    {
        AsusBootSoundProvider::new("/sys")
    }
}

} // verus!
