//! Read-only ASUS panel overdrive state from the kernel asus-armoury
//! attribute: `0` is disabled, `1` enabled, a missing attribute unsupported
//! and anything else an internal error (never a fake default). Nothing is
//! written.
use vstd::prelude::*;
use vstd::string::*;

use crate::diagnostics::DiagnosticEntry;
use crate::error::{IoErrorKind, IoFailure, IoFailureView, ProviderError, ProviderErrorView};
use crate::paths::{join, join_path};
use crate::text::{concat2, debug_str, debug_text, str_eq, trim, trimmed};

verus! {

/// The attribute below the sysfs root.
pub const ASUS_ARMOURY_PANEL_OVERDRIVE_RELATIVE_PATH: &'static str =
    "class/firmware-attributes/asus-armoury/attributes/panel_overdrive/current_value";

/// Panel overdrive state.
#[derive(Debug, Clone, Copy, PartialEq, Eq, Structural)]
pub enum PanelOverdriveState {
    /// Kernel value 0.
    Disabled,
    /// Kernel value 1.
    Enabled,
    /// State not established; this provider never reports it.
    Unknown,
}

/// The error of a failed read.
pub open spec fn overdrive_read_error(path: Seq<char>, f: IoFailureView) -> ProviderErrorView {
    if f.kind == IoErrorKind::NotFound {
        ProviderErrorView::Unsupported("asus-armoury panel_overdrive attribute absent: "@ + path)
    } else if f.kind == IoErrorKind::PermissionDenied {
        ProviderErrorView::PermissionDenied("asus-armoury panel_overdrive read denied: "@ + path)
    } else {
        ProviderErrorView::Io(f)
    }
}

/// The state from the attribute read.
pub open spec fn overdrive_state_of(path: Seq<char>, r: Result<String, IoFailure>) -> Result<
    PanelOverdriveState,
    ProviderErrorView,
> {
    match r {
        Err(f) => Err(overdrive_read_error(path, f@)),
        Ok(raw) => if trim(raw@) == "0"@ {
            Ok(PanelOverdriveState::Disabled)
        } else if trim(raw@) == "1"@ {
            Ok(PanelOverdriveState::Enabled)
        } else {
            Err(
                ProviderErrorView::Internal(
                    "asus-armoury panel_overdrive malformed value: "@ + debug_str(trim(raw@)),
                ),
            )
        },
    }
}

/// Read-only panel overdrive provider over a sysfs root.
#[derive(Debug, Clone)]
pub struct AsusArmouryPanelOverdriveProvider {
    /// The sysfs root.
    pub sysfs_root: String,
}

impl AsusArmouryPanelOverdriveProvider {
    /// A provider over `sysfs_root`.
    pub fn new(sysfs_root: &str) -> (p: Self)
        ensures
            p.sysfs_root@ == sysfs_root@,
    {
        AsusArmouryPanelOverdriveProvider { sysfs_root: sysfs_root.to_owned() }
    }

    /// The attribute file.
    pub fn current_value_path(&self) -> (p: String)
        ensures
            p@ == join(self.sysfs_root@, ASUS_ARMOURY_PANEL_OVERDRIVE_RELATIVE_PATH@),
    {
        join_path(self.sysfs_root.as_str(), ASUS_ARMOURY_PANEL_OVERDRIVE_RELATIVE_PATH)
    }

    /// Provider diagnostics.
    pub fn diagnostics(&self) -> (v: Vec<DiagnosticEntry>)
        ensures
            v@.len() == 1,
            v@[0].key@ == "provider.asus-armoury-panel-overdrive"@,
            v@[0].value@ == "read-only kernel asus-armoury panel_overdrive backend"@,
    {
        let mut v = Vec::new();
        v.push(
            DiagnosticEntry::new(
                "provider.asus-armoury-panel-overdrive",
                "read-only kernel asus-armoury panel_overdrive backend",
            ),
        );
        v
    }

    /// The panel overdrive state from the attribute the host read.
    pub fn panel_overdrive_state(&self, current_value: &Result<String, IoFailure>) -> (r: Result<
        PanelOverdriveState,
        ProviderError,
    >)
        ensures
            match overdrive_state_of(join(self.sysfs_root@, ASUS_ARMOURY_PANEL_OVERDRIVE_RELATIVE_PATH@), *current_value) {
                Ok(s) => r == Ok::<PanelOverdriveState, ProviderError>(s),
                Err(e) => r matches Err(err) && err@ == e,
            },
    {
        let path = self.current_value_path();
        match current_value {
            Err(f) => {
                let p = path.as_str();
                Err(
                    match f.kind {
                        IoErrorKind::NotFound => ProviderError::Unsupported(
                            concat2("asus-armoury panel_overdrive attribute absent: ", p),
                        ),
                        IoErrorKind::PermissionDenied => ProviderError::PermissionDenied(
                            concat2("asus-armoury panel_overdrive read denied: ", p),
                        ),
                        _ => ProviderError::Io(f.clone_failure()),
                    },
                )
            },
            Ok(raw) => {
                let t = trimmed(raw.as_str());
                if str_eq(t.as_str(), "0") {
                    Ok(PanelOverdriveState::Disabled)
                } else if str_eq(t.as_str(), "1") {
                    Ok(PanelOverdriveState::Enabled)
                } else {
                    Err(
                        ProviderError::Internal(
                            concat2("asus-armoury panel_overdrive malformed value: ", debug_text(t.as_str()).as_str()),
                        ),
                    )
                }
            },
        }
    }
}

impl Default for AsusArmouryPanelOverdriveProvider {
    /// The provider over `/sys`.
    fn default() -> (p: Self)
        ensures
            p.sysfs_root@ == "/sys"@,
    {
        AsusArmouryPanelOverdriveProvider::new("/sys")
    }
}

} // verus!
