//! Read-only discovery of the compositor's wlr output-management protocol.
//!
//! This is not a display-refresh mutation owner. It proves only that the
//! current Wayland compositor advertises `zwlr_output_manager_v1` and records
//! the advertised protocol version. Global presence is transport evidence;
//! it is not evidence of an internal-panel target identity, of exact refresh
//! targets, of permission to apply a configuration, or of mutation/read-back
//! semantics.
use vstd::prelude::*;

use crate::error::{ProviderError, ProviderErrorView};
use crate::text::str_eq;

verus! {

/// Stable Wayland registry interface name for wlr output management.
pub const WLR_OUTPUT_MANAGER_INTERFACE: &'static str = "zwlr_output_manager_v1";

/// Highest protocol version understood by the current design contract.
///
/// Version 4 adds adaptive-sync state but keeps the configuration semantics
/// used by the planned refresh owner. The probe does not bind even this
/// version; it only records compatibility.
pub const WLR_OUTPUT_MANAGER_CLIENT_MAX_VERSION: u32 = 4;

/// Minimal registry observation used by the pure classifier.
#[derive(Debug, Clone, PartialEq, Eq)]
pub struct WaylandRegistryGlobal {
    /// Registry interface name.
    pub interface: String,
    /// Compositor-advertised interface version.
    pub version: u32,
}

/// Proven transport-level availability of `zwlr_output_manager_v1`.
#[derive(Debug, Clone, Copy, PartialEq, Eq, Structural)]
pub struct WlrOutputManagementSupport {
    advertised_version: u32,
    compatible_version: u32,
}

impl WlrOutputManagementSupport {
    /// The advertised version.
    pub closed spec fn advertised(self) -> u32 {
        self.advertised_version
    }

    /// The compatible version.
    pub closed spec fn compatible(self) -> u32 {
        self.compatible_version
    }

    /// Exact compositor-advertised version.
    pub fn advertised_version(self) -> (v: u32)
        ensures
            v == self.advertised(),
    {
        self.advertised_version
    }

    /// Version ceiling the current design may eventually bind.
    pub fn compatible_version(self) -> (v: u32)
        ensures
            v == self.compatible(),
    {
        self.compatible_version
    }
}

/// Whether a global is the wlr output manager.
pub open spec fn is_manager(g: WaylandRegistryGlobal) -> bool {
    g.interface@ == WLR_OUTPUT_MANAGER_INTERFACE@
}

/// The number of manager globals in `gs`.
pub open spec fn manager_count(gs: Seq<WaylandRegistryGlobal>) -> nat
    decreases gs.len(),
{
    if gs.len() == 0 {
        0
    } else {
        manager_count(gs.drop_last()) + if is_manager(gs.last()) {
            1nat
        } else {
            0nat
        }
    }
}

/// Classify one immutable Wayland registry snapshot.
///
/// Absence is `Unsupported`; multiple manager globals or a zero version are
/// contradictory evidence and fail closed as `Internal` rather than selecting
/// a manager arbitrarily. The compatible version is the advertised version
/// capped at [`WLR_OUTPUT_MANAGER_CLIENT_MAX_VERSION`].
pub fn classify_wlr_output_management_globals(globals: &Vec<WaylandRegistryGlobal>) -> (r: Result<
    WlrOutputManagementSupport,
    ProviderError,
>)
    ensures
        manager_count(globals@) == 0 ==> (r matches Err(e) && e@ == ProviderErrorView::Unsupported(
            "compositor does not advertise zwlr_output_manager_v1"@,
        )),
        manager_count(globals@) >= 2 ==> (r matches Err(e) && e@ == ProviderErrorView::Internal(
            "Wayland registry advertises multiple zwlr_output_manager_v1 globals; refusing ambiguous configuration owner"@,
        )),
        manager_count(globals@) == 1 ==> exists|i: int|
            0 <= i < globals@.len() && is_manager(#[trigger] globals@[i]) && if globals@[i].version
                == 0 {
                r matches Err(e) && e@ == ProviderErrorView::Internal(
                    "Wayland registry advertised zwlr_output_manager_v1 version 0"@,
                )
            } else {
                r matches Ok(s) && s.advertised() == globals@[i].version && s.compatible() == if globals@[i].version
                    > WLR_OUTPUT_MANAGER_CLIENT_MAX_VERSION {
                    WLR_OUTPUT_MANAGER_CLIENT_MAX_VERSION
                } else {
                    globals@[i].version
                }
            },
{
    let mut found: Option<usize> = None;
    let mut count: usize = 0;
    let mut i: usize = 0;
    while i < globals.len()
        invariant
            0 <= i <= globals@.len(),
            count == if manager_count(globals@.take(i as int)) > 2 {
                2
            } else {
                manager_count(globals@.take(i as int))
            },
            match found {
                Some(k) => k < i && is_manager(globals@[k as int]),
                None => manager_count(globals@.take(i as int)) == 0,
            },
        decreases globals@.len() - i,
    {
        assert(globals@.take(i + 1).drop_last() =~= globals@.take(i as int));
        if str_eq(globals[i].interface.as_str(), WLR_OUTPUT_MANAGER_INTERFACE) {
            if found.is_none() {
                found = Some(i);
            }
            if count < 2 {
                count = count + 1;
            }
        }
        i = i + 1;
    }
    assert(globals@.take(globals@.len() as int) =~= globals@);
    if count == 0 {
        return Err(
            ProviderError::Unsupported("compositor does not advertise zwlr_output_manager_v1".to_owned()),
        );
    }
    if count >= 2 {
        return Err(
            ProviderError::Internal(
                "Wayland registry advertises multiple zwlr_output_manager_v1 globals; refusing ambiguous configuration owner".to_owned(),
            ),
        );
    }
    let k = match found {
        Some(k) => k,
        None => {
            return Err(
                ProviderError::Unsupported("compositor does not advertise zwlr_output_manager_v1".to_owned()),
            );
        },
    };
    let version = globals[k].version;
    if version == 0 {
        return Err(
            ProviderError::Internal("Wayland registry advertised zwlr_output_manager_v1 version 0".to_owned()),
        );
    }
    let compatible = if version > WLR_OUTPUT_MANAGER_CLIENT_MAX_VERSION {
        WLR_OUTPUT_MANAGER_CLIENT_MAX_VERSION
    } else {
        version
    };
    Ok(WlrOutputManagementSupport { advertised_version: version, compatible_version: compatible })
}

} // verus!
