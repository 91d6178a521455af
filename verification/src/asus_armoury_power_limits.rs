//! Read-only provider for the three ASUS Armoury CPU package limits.
//!
//! Each limit lives in a firmware-attributes directory with `current_value`,
//! `min_value`, `max_value`, `type` and an optional `default_value`. The host
//! reads the files; this module judges them.
use vstd::prelude::*;

use crate::diagnostics::DiagnosticEntry;
use vstd::string::*;

use crate::error::{IoErrorKind, IoFailure, IoFailureView, ProviderError, ProviderErrorView, ValidationResult};
use crate::mock::ApplyResult;
use crate::limits::{
    power_limit_check, power_limit_error_text, PowerLimitField, PowerLimitValue, PowerLimits, Unit,
};
use crate::paths::{join, join_path};
use crate::text::{concat2, debug_str, debug_text, parse_i32, parse_i32_str, str_eq, trim, trimmed};

verus! {

/// The firmware-attributes directory of ASUS Armoury, below the sysfs root.
pub const ASUS_ARMOURY_ATTRIBUTES: &'static str = "class/firmware-attributes/asus-armoury/attributes";

/// The attribute directory of a CPU package limit.
pub open spec fn armoury_limit_dir_name(field: PowerLimitField) -> Seq<char> {
    match field {
        PowerLimitField::Spl => "ppt_pl1_spl"@,
        PowerLimitField::Sppt => "ppt_pl2_sppt"@,
        PowerLimitField::Fppt => "ppt_fppt"@,
    }
}

/// The attribute directory of a CPU package limit.
pub fn armoury_limit_dir(field: PowerLimitField) -> (s: &'static str)
    ensures
        s@ == armoury_limit_dir_name(field),
{
    match field {
        PowerLimitField::Spl => "ppt_pl1_spl",
        PowerLimitField::Sppt => "ppt_pl2_sppt",
        PowerLimitField::Fppt => "ppt_fppt",
    }
}

/// Read-only provider for the ASUS Armoury CPU package limits.
#[derive(Debug, Clone)]
pub struct AsusArmouryPowerLimitProvider {
    /// The sysfs root (`/sys` or a fixture tree).
    pub sysfs_root: String,
}

impl AsusArmouryPowerLimitProvider {
    /// Provider diagnostics.
    pub fn diagnostics(&self) -> (v: Vec<DiagnosticEntry>)
        ensures
            v@.len() == 1,
            v@[0].key@ == "provider.asus-armoury-cpu-package-limits"@,
            v@[0].value@ == "read-only ASUS Armoury CPU package-limit metadata"@,
    {
        let mut v = Vec::new();
        v.push(DiagnosticEntry::new("provider.asus-armoury-cpu-package-limits", "read-only ASUS Armoury CPU package-limit metadata"));
        v
    }

    /// A provider rooted at `/sys` or a fixture tree.
    pub fn new(sysfs_root: &str) -> (p: Self)
        ensures
            p.sysfs_root@ == sysfs_root@,
    {
        AsusArmouryPowerLimitProvider { sysfs_root: sysfs_root.to_owned() }
    }

    /// The attribute directory of `field`.
    pub fn attribute_dir(&self, field: PowerLimitField) -> (p: String)
        ensures
            p@ == join(join(self.sysfs_root@, ASUS_ARMOURY_ATTRIBUTES@), armoury_limit_dir_name(field)),
    {
        let base = join_path(self.sysfs_root.as_str(), ASUS_ARMOURY_ATTRIBUTES);
        join_path(base.as_str(), armoury_limit_dir(field))
    }

    /// Writes are rejected: the package limits are read-only.
    pub fn validate_power_limit(&self, field: &PowerLimitField, value: i32) -> (r: ValidationResult)
        ensures
            r matches ValidationResult::Invalid(m) && m@ == "ASUS Armoury CPU package limits are read-only"@,
    {
        ValidationResult::invalid("ASUS Armoury CPU package limits are read-only")
    }

    /// Setting a limit is not offered.
    pub fn set_power_limit(&self, field: PowerLimitField, value: i32) -> (r: Result<ApplyResult, ProviderError>)
        ensures
            r matches Err(e) && e@ == ProviderErrorView::Unsupported(
                "ASUS Armoury CPU package limits are read-only"@,
            ),
    {
        Err(ProviderError::Unsupported("ASUS Armoury CPU package limits are read-only".to_owned()))
    }

    /// Restoring defaults is not offered.
    pub fn restore_defaults(&self) -> (r: Result<ApplyResult, ProviderError>)
        ensures
            r matches Err(e) && e@ == ProviderErrorView::Unsupported(
                "ASUS Armoury CPU package limits are read-only"@,
            ),
    {
        Err(ProviderError::Unsupported("ASUS Armoury CPU package limits are read-only".to_owned()))
    }
}

impl Default for AsusArmouryPowerLimitProvider {
    fn default() -> (p: Self)
        ensures
            p.sysfs_root@ == "/sys"@,
    {
        AsusArmouryPowerLimitProvider { sysfs_root: "/sys".to_owned() }
    }
}

/// The error of a failed attribute read: `ENODEV` is a transient backend
/// outage, a missing attribute is unsupported, a refused read is a
/// permission failure, and anything else an I/O error.
pub open spec fn power_limit_error(path: Seq<char>, f: IoFailureView) -> ProviderErrorView {
    if f.raw_os_error == Some(19i32) {
        ProviderErrorView::BackendUnavailable("asus-armoury ENODEV: "@ + path)
    } else if f.kind == IoErrorKind::NotFound {
        ProviderErrorView::Unsupported("asus-armoury power-limit attribute absent: "@ + path)
    } else if f.kind == IoErrorKind::PermissionDenied {
        ProviderErrorView::PermissionDenied("asus-armoury power-limit read denied: "@ + path)
    } else {
        ProviderErrorView::Io(f)
    }
}

/// Map a failed attribute read to a provider error.
pub fn map_power_limit_error(path: &str, failure: IoFailure) -> (e: ProviderError)
    ensures
        e@ == power_limit_error(path@, failure@),
{
    if matches!(failure.raw_os_error, Some(19)) {
        return ProviderError::BackendUnavailable(concat2("asus-armoury ENODEV: ", path));
    }
    match failure.kind {
        IoErrorKind::NotFound => ProviderError::Unsupported(
            concat2("asus-armoury power-limit attribute absent: ", path),
        ),
        IoErrorKind::PermissionDenied => ProviderError::PermissionDenied(
            concat2("asus-armoury power-limit read denied: ", path),
        ),
        _ => ProviderError::Io(failure),
    }
}

/// The files of one limit directory.
#[derive(Debug)]
pub struct ArmouryLimitReadings {
    /// `current_value`.
    pub current_value: Result<String, IoFailure>,
    /// `min_value`.
    pub min_value: Result<String, IoFailure>,
    /// `max_value`.
    pub max_value: Result<String, IoFailure>,
    /// `type`.
    pub attribute_type: Result<String, IoFailure>,
    /// `default_value`.
    pub default_value: Result<String, IoFailure>,
}

/// An integer attribute: its trimmed content parsed as `i32`.
pub open spec fn integer_attribute(dir: Seq<char>, name: Seq<char>, r: Result<String, IoFailure>) -> Result<
    int,
    ProviderErrorView,
> {
    match r {
        Err(f) => Err(power_limit_error(join(dir, name), f@)),
        Ok(raw) => match parse_i32(trim(raw@)) {
            Ok(v) => Ok(v),
            Err(_) => Err(ProviderErrorView::Internal("asus-armoury malformed "@ + name + ": "@ + debug_str(raw@))),
        },
    }
}

/// An optional integer attribute: absent when not found.
pub open spec fn optional_integer_attribute(
    dir: Seq<char>,
    name: Seq<char>,
    r: Result<String, IoFailure>,
) -> Result<Option<int>, ProviderErrorView> {
    match r {
        Err(f) => if f.kind == IoErrorKind::NotFound {
            Ok(None)
        } else {
            Err(power_limit_error(join(dir, name), f@))
        },
        Ok(raw) => match parse_i32(trim(raw@)) {
            Ok(v) => Ok(Some(v)),
            Err(_) => Err(ProviderErrorView::Internal("asus-armoury malformed "@ + name + ": "@ + debug_str(raw@))),
        },
    }
}

/// One limit: current, minimum and maximum must read as integers, the type
/// must be `integer` with `min <= max`, the default is optional, and the
/// value must be consistent with its metadata (step 1, watts). Failures are
/// reported in that order.
pub open spec fn armoury_limit(dir: Seq<char>, field_dir: Seq<char>, r: ArmouryLimitReadings) -> Result<
    PowerLimitValue,
    ProviderErrorView,
> {
    match integer_attribute(dir, "current_value"@, r.current_value) {
        Err(e) => Err(e),
        Ok(value) => match integer_attribute(dir, "min_value"@, r.min_value) {
            Err(e) => Err(e),
            Ok(min) => match integer_attribute(dir, "max_value"@, r.max_value) {
                Err(e) => Err(e),
                Ok(max) => match r.attribute_type {
                    Err(f) => Err(power_limit_error(join(dir, "type"@), f@)),
                    Ok(t) => if trim(t@) != "integer"@ || min > max {
                        Err(ProviderErrorView::Internal("asus-armoury inconsistent metadata for "@ + field_dir))
                    } else {
                        match optional_integer_attribute(dir, "default_value"@, r.default_value) {
                            Err(e) => Err(e),
                            Ok(default) => {
                                let d = match default {
                                    Some(x) => Some(x as i32),
                                    None => None,
                                };
                                match power_limit_check(value as i32, min as i32, max as i32, 1, d) {
                                    Some(err) => Err(ProviderErrorView::Internal(power_limit_error_text(err))),
                                    None => Ok(
                                        PowerLimitValue {
                                            value: value as i32,
                                            min: min as i32,
                                            max: max as i32,
                                            step: 1,
                                            default: d,
                                            unit: Unit::Watts,
                                        },
                                    ),
                                }
                            },
                        }
                    },
                },
            },
        },
    }
}

fn read_integer(dir: &str, name: &str, r: &Result<String, IoFailure>) -> (v: Result<i32, ProviderError>)
    ensures
        match integer_attribute(dir@, name@, *r) {
            Ok(x) => v == Ok::<i32, ProviderError>(x as i32),
            Err(e) => v matches Err(err) && err@ == e,
        },
{
    match r {
        Err(f) => {
            let path = join_path(dir, name);
            Err(map_power_limit_error(path.as_str(), f.clone_failure()))
        },
        Ok(raw) => {
            let t = trimmed(raw.as_str());
            match parse_i32_str(t.as_str()) {
                Ok(x) => Ok(x),
                Err(_) => {
                    let mut m = concat2("asus-armoury malformed ", name);
                    m.append(": ");
                    let d = debug_text(raw.as_str());
                    m.append(d.as_str());
                    Err(ProviderError::Internal(m))
                },
            }
        },
    }
}

fn read_optional_integer(dir: &str, name: &str, r: &Result<String, IoFailure>) -> (v: Result<Option<i32>, ProviderError>)
    ensures
        match optional_integer_attribute(dir@, name@, *r) {
            Ok(Some(x)) => v == Ok::<Option<i32>, ProviderError>(Some(x as i32)),
            Ok(None) => v == Ok::<Option<i32>, ProviderError>(None),
            Err(e) => v matches Err(err) && err@ == e,
        },
{
    match r {
        Err(f) => {
            if matches!(f.kind, IoErrorKind::NotFound) {
                return Ok(None);
            }
            let path = join_path(dir, name);
            Err(map_power_limit_error(path.as_str(), f.clone_failure()))
        },
        Ok(_) => match read_integer(dir, name, r) {
            Ok(x) => Ok(Some(x)),
            Err(e) => Err(e),
        },
    }
}

/// Judge the files of one limit directory.
pub fn read_armoury_limit(dir: &str, field: PowerLimitField, r: &ArmouryLimitReadings) -> (v: Result<
    PowerLimitValue,
    ProviderError,
>)
    ensures
        match armoury_limit(dir@, armoury_limit_dir_name(field), *r) {
            Ok(x) => v == Ok::<PowerLimitValue, ProviderError>(x),
            Err(e) => v matches Err(err) && err@ == e,
        },
{
    let value = match read_integer(dir, "current_value", &r.current_value) {
        Ok(x) => x,
        Err(e) => {
            return Err(e);
        },
    };
    let min = match read_integer(dir, "min_value", &r.min_value) {
        Ok(x) => x,
        Err(e) => {
            return Err(e);
        },
    };
    let max = match read_integer(dir, "max_value", &r.max_value) {
        Ok(x) => x,
        Err(e) => {
            return Err(e);
        },
    };
    let kind = match &r.attribute_type {
        Ok(t) => trimmed(t.as_str()),
        Err(f) => {
            let path = join_path(dir, "type");
            return Err(map_power_limit_error(path.as_str(), f.clone_failure()));
        },
    };
    if !str_eq(kind.as_str(), "integer") || min > max {
        return Err(
            ProviderError::Internal(
                concat2("asus-armoury inconsistent metadata for ", armoury_limit_dir(field)),
            ),
        );
    }
    let default = match read_optional_integer(dir, "default_value", &r.default_value) {
        Ok(d) => d,
        Err(e) => {
            return Err(e);
        },
    };
    match PowerLimitValue::new(value, min, max, 1, default, Unit::Watts) {
        Ok(v) => Ok(v),
        Err(e) => Err(ProviderError::Internal(e.text().to_owned())),
    }
}

/// The files of the three limit directories.
#[derive(Debug)]
pub struct ArmouryPowerLimitReadings {
    /// `ppt_pl1_spl`.
    pub spl: ArmouryLimitReadings,
    /// `ppt_pl2_sppt`.
    pub sppt: ArmouryLimitReadings,
    /// `ppt_fppt`.
    pub fppt: ArmouryLimitReadings,
}

impl AsusArmouryPowerLimitProvider {
    /// The three CPU package limits, in field order; the first limit that
    /// fails decides the error.
    pub fn power_limits_from(&self, r: &ArmouryPowerLimitReadings) -> (v: Result<PowerLimits, ProviderError>)
        ensures
            ({
                let base = join(self.sysfs_root@, ASUS_ARMOURY_ATTRIBUTES@);
                let spl = armoury_limit(join(base, "ppt_pl1_spl"@), "ppt_pl1_spl"@, r.spl);
                let sppt = armoury_limit(join(base, "ppt_pl2_sppt"@), "ppt_pl2_sppt"@, r.sppt);
                let fppt = armoury_limit(join(base, "ppt_fppt"@), "ppt_fppt"@, r.fppt);
                match (spl, sppt, fppt) {
                    (Err(e), _, _) => v matches Err(err) && err@ == e,
                    (Ok(_), Err(e), _) => v matches Err(err) && err@ == e,
                    (Ok(_), Ok(_), Err(e)) => v matches Err(err) && err@ == e,
                    (Ok(a), Ok(b), Ok(c)) => v matches Ok(l) && l.fields@ == seq![
                        (PowerLimitField::Spl, a),
                        (PowerLimitField::Sppt, b),
                        (PowerLimitField::Fppt, c),
                    ],
                }
            }),
            v matches Ok(l) ==> l.wf(),
    {
        let spl_dir = self.attribute_dir(PowerLimitField::Spl);
        let a = match read_armoury_limit(spl_dir.as_str(), PowerLimitField::Spl, &r.spl) {
            Ok(x) => x,
            Err(e) => {
                return Err(e);
            },
        };
        let sppt_dir = self.attribute_dir(PowerLimitField::Sppt);
        let b = match read_armoury_limit(sppt_dir.as_str(), PowerLimitField::Sppt, &r.sppt) {
            Ok(x) => x,
            Err(e) => {
                return Err(e);
            },
        };
        let fppt_dir = self.attribute_dir(PowerLimitField::Fppt);
        let c = match read_armoury_limit(fppt_dir.as_str(), PowerLimitField::Fppt, &r.fppt) {
            Ok(x) => x,
            Err(e) => {
                return Err(e);
            },
        };
        let mut fields: Vec<(PowerLimitField, PowerLimitValue)> = Vec::new();
        fields.push((PowerLimitField::Spl, a));
        fields.push((PowerLimitField::Sppt, b));
        fields.push((PowerLimitField::Fppt, c));
        assert(fields@ =~= seq![
            (PowerLimitField::Spl, a),
            (PowerLimitField::Sppt, b),
            (PowerLimitField::Fppt, c),
        ]);
        Ok(PowerLimits { fields })
    }
}

} // verus!
