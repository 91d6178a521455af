//! Privacy-safe read-only DMI identity for diagnostics.
//!
//! Only vendor, product, board, BIOS version and BIOS date are read; serial,
//! UUID, asset tag and other device-unique identifiers are never part of
//! the allowlist. A partial read is not padded with synthetic values: any
//! missing, unreadable or blank required field leaves the identity absent.
use vstd::prelude::*;

use crate::system_metadata::{normalized, normalized_value, opt_seq};

verus! {

/// DMI system vendor.
pub const SYS_VENDOR_PATH: &'static str = "/sys/class/dmi/id/sys_vendor";

/// DMI product name.
pub const PRODUCT_NAME_PATH: &'static str = "/sys/class/dmi/id/product_name";

/// DMI board name.
pub const BOARD_NAME_PATH: &'static str = "/sys/class/dmi/id/board_name";

/// DMI BIOS version.
pub const BIOS_VERSION_PATH: &'static str = "/sys/class/dmi/id/bios_version";

/// DMI BIOS date.
pub const BIOS_DATE_PATH: &'static str = "/sys/class/dmi/id/bios_date";

/// Device identity; every field is present and non-blank.
#[derive(Debug, Clone, PartialEq, Eq)]
pub struct DeviceIdentity {
    /// Vendor.
    pub vendor: String,
    /// Product.
    pub product: String,
    /// Board.
    pub board: String,
    /// BIOS version.
    pub bios_version: String,
    /// BIOS date.
    pub bios_date: String,
}

/// Hardware diagnostics.
#[derive(Debug, Clone, PartialEq, Eq)]
pub struct HardwareDiagnostics {
    /// Identity, when every field was read.
    pub identity: Option<DeviceIdentity>,
}

/// Whether `f` is one of the allowlisted DMI files.
pub open spec fn allowlisted(f: Seq<char>) -> bool {
    f == SYS_VENDOR_PATH@ || f == PRODUCT_NAME_PATH@ || f == BOARD_NAME_PATH@ || f == BIOS_VERSION_PATH@
        || f == BIOS_DATE_PATH@
}

/// Whether `r` is what the five lookups give: every field present and
/// non-blank, or else some allowlisted file missing or blank.
pub open spec fn identity_read<F: Fn(&str) -> Option<String>>(lookup: F, r: Option<DeviceIdentity>) -> bool {
    match r {
        Some(id) => exists|a: Option<String>, b: Option<String>, c: Option<String>, d: Option<String>, e: Option<String>|
            {
                &&& lookup.ensures((SYS_VENDOR_PATH,), a)
                &&& lookup.ensures((PRODUCT_NAME_PATH,), b)
                &&& lookup.ensures((BOARD_NAME_PATH,), c)
                &&& lookup.ensures((BIOS_VERSION_PATH,), d)
                &&& lookup.ensures((BIOS_DATE_PATH,), e)
                &&& normalized(opt_seq(a)) == Some(id.vendor@)
                &&& normalized(opt_seq(b)) == Some(id.product@)
                &&& normalized(opt_seq(c)) == Some(id.board@)
                &&& normalized(opt_seq(d)) == Some(id.bios_version@)
                &&& normalized(opt_seq(e)) == Some(id.bios_date@)
            },
        None => exists|k: &str, v: Option<String>| allowlisted(k@) && lookup.ensures((k,), v) && normalized(
            opt_seq(v),
        ) is None,
    }
}

/// The identity through a lookup of file contents, asked for the five
/// allowlisted files in order and stopping at the first missing or blank
/// one.
pub fn identity_from_lookup<F: Fn(&str) -> Option<String>>(lookup: F) -> (r: Option<DeviceIdentity>)
    requires
        forall|k: &str| lookup.requires((k,)),
    ensures
        identity_read(lookup, r),
{
    let a = lookup(SYS_VENDOR_PATH);
    let vendor = match normalized_value(a) {
        Some(v) => v,
        None => {
            return None;
        },
    };
    let b = lookup(PRODUCT_NAME_PATH);
    let product = match normalized_value(b) {
        Some(v) => v,
        None => {
            return None;
        },
    };
    let c = lookup(BOARD_NAME_PATH);
    let board = match normalized_value(c) {
        Some(v) => v,
        None => {
            return None;
        },
    };
    let d = lookup(BIOS_VERSION_PATH);
    let bios_version = match normalized_value(d) {
        Some(v) => v,
        None => {
            return None;
        },
    };
    let e = lookup(BIOS_DATE_PATH);
    let bios_date = match normalized_value(e) {
        Some(v) => v,
        None => {
            return None;
        },
    };
    Some(DeviceIdentity { vendor, product, board, bios_version, bios_date })
}

/// Provider of the DMI identity.
#[derive(Debug, Clone, Copy, PartialEq, Eq)]
pub struct HardwareIdentityProvider;

impl HardwareIdentityProvider {
    /// The provider.
    pub fn new() -> (p: Self) {
        HardwareIdentityProvider
    }

    /// One snapshot through a reader of the allowlisted files.
    pub fn snapshot<F: Fn(&str) -> Option<String>>(&self, read_file: F) -> (d: HardwareDiagnostics)
        requires
            forall|k: &str| read_file.requires((k,)),
        ensures
            identity_read(read_file, d.identity),
    {
        HardwareDiagnostics { identity: identity_from_lookup(read_file) }
    }
}

impl Default for HardwareIdentityProvider {
    /// The provider.
    fn default() -> (p: Self) {
        HardwareIdentityProvider
    }
}

} // verus!
