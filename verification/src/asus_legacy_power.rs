//! Typed read-only adapter for the legacy `asus-nb-wmi` PPT ABI.
//!
//! The legacy driver publishes current PPT values but, on the kernels seen so
//! far, no authoritative per-field metadata. A field is therefore only
//! advertised once its current value and its metadata (minimum, maximum,
//! step) are all readable; the default is optional.
use vstd::prelude::*;

use crate::diagnostics::DiagnosticEntry;
use vstd::string::*;

use crate::error::{IoErrorKind, IoFailure, ProviderError, ProviderErrorView, ValidationResult};
use crate::mock::ApplyResult;
use crate::limits::{
    field_rank, fields_ordered, lemma_push_ordered,
    power_limit_check, power_limit_error_text, PowerLimitField, PowerLimitValue, PowerLimits, Unit,
};
use crate::paths::{join, join_path};
use crate::text::{
    concat2, concat3, debug_string_list, debug_strings, int_error_text, parse_i32, parse_i32_str,
    strs, trim, trimmed,
};

verus! {

/// Fixed production root of the legacy ASUS PPT ABI.
pub const ASUS_NB_WMI_ROOT: &'static str = "/sys/devices/platform/asus-nb-wmi";

/// The file of a legacy PPT field.
pub open spec fn nb_wmi_field_name(field: PowerLimitField) -> Seq<char> {
    match field {
        PowerLimitField::Spl => "ppt_pl1_spl"@,
        PowerLimitField::Sppt => "ppt_pl2_sppt"@,
        PowerLimitField::Fppt => "ppt_fppt"@,
    }
}

/// The file of a legacy PPT field.
pub fn nb_wmi_field(field: PowerLimitField) -> (s: &'static str)
    ensures
        s@ == nb_wmi_field_name(field),
{
    match field {
        PowerLimitField::Spl => "ppt_pl1_spl",
        PowerLimitField::Sppt => "ppt_pl2_sppt",
        PowerLimitField::Fppt => "ppt_fppt",
    }
}

/// Fixed-path legacy ASUS PPT source.
#[derive(Debug, Clone)]
pub struct AsusNbWmiPowerLimitProvider {
    /// The driver directory.
    pub root: String,
}

impl AsusNbWmiPowerLimitProvider {
    /// Provider diagnostics.
    pub fn diagnostics(&self) -> (v: Vec<DiagnosticEntry>)
        ensures
            v@.len() == 1,
            v@[0].key@ == "provider.asus-nb-wmi-power-limits"@,
            v@[0].value@ == "fixed legacy ASUS PPT paths; metadata required"@,
    {
        let mut v = Vec::new();
        v.push(DiagnosticEntry::new("provider.asus-nb-wmi-power-limits", "fixed legacy ASUS PPT paths; metadata required"));
        v
    }

    /// The provider over the fixed production root.
    pub fn new() -> (p: Self)
        ensures
            p.root@ == ASUS_NB_WMI_ROOT@,
    {
        AsusNbWmiPowerLimitProvider { root: ASUS_NB_WMI_ROOT.to_owned() }
    }

    /// A provider over another root (fixtures).
    pub fn with_root(root: &str) -> (p: Self)
        ensures
            p.root@ == root@,
    {
        AsusNbWmiPowerLimitProvider { root: root.to_owned() }
    }

    /// The path of a driver file.
    pub fn path(&self, name: &str) -> (p: String)
        ensures
            p@ == join(self.root@, name@),
    {
        join_path(self.root.as_str(), name)
    }

    /// Writes are not offered until a metadata contract exists.
    pub fn validate_power_limit(&self, field: &PowerLimitField, value: i32) -> (r: ValidationResult)
        ensures
            r matches ValidationResult::Invalid(m) && m@ == "asus-nb-wmi PPT metadata is unavailable"@,
    {
        ValidationResult::invalid("asus-nb-wmi PPT metadata is unavailable")
    }

    /// Setting a limit is not offered.
    pub fn set_power_limit(&self, field: PowerLimitField, value: i32) -> (r: Result<ApplyResult, ProviderError>)
        ensures
            r matches Err(e) && e@ == ProviderErrorView::Unsupported(
                "asus-nb-wmi PPT adapter is read-only until metadata contract is present"@,
            ),
    {
        Err(
            ProviderError::Unsupported(
                "asus-nb-wmi PPT adapter is read-only until metadata contract is present".to_owned(),
            ),
        )
    }

    /// Restoring defaults is not offered.
    pub fn restore_defaults(&self) -> (r: Result<ApplyResult, ProviderError>)
        ensures
            r matches Err(e) && e@ == ProviderErrorView::Unsupported(
                "asus-nb-wmi PPT reset is not a typed Orbis contract"@,
            ),
    {
        Err(ProviderError::Unsupported("asus-nb-wmi PPT reset is not a typed Orbis contract".to_owned()))
    }
}

impl Default for AsusNbWmiPowerLimitProvider {
    fn default() -> (p: Self)
        ensures
            p.root@ == ASUS_NB_WMI_ROOT@,
    {
        Self::new()
    }
}

/// The files of one legacy PPT field.
#[derive(Debug)]
pub struct NbWmiFieldReadings {
    /// `<name>`.
    pub current: Result<String, IoFailure>,
    /// `<name>_min_value`.
    pub min_value: Result<String, IoFailure>,
    /// `<name>_max_value`.
    pub max_value: Result<String, IoFailure>,
    /// `<name>_scalar_increment`.
    pub scalar_increment: Result<String, IoFailure>,
    /// `<name>_default_value`.
    pub default_value: Result<String, IoFailure>,
}

/// A metadata file's value, when it reads and parses; any failure only
/// withholds the field.
pub open spec fn metadata_value(r: Result<String, IoFailure>) -> Option<int> {
    match r {
        Ok(raw) => match parse_i32(trim(raw@)) {
            Ok(v) => Some(v),
            Err(_) => None,
        },
        Err(_) => None,
    }
}

/// The outcome of one field.
pub enum FieldOutcome {
    /// The current file does not exist: the field is not seen.
    Absent,
    /// The current value was seen but metadata is incomplete.
    SeenIncomplete,
    /// The field is proven.
    Proven(PowerLimitValue),
}

/// One field: a missing current file is absent; a refused read, another I/O
/// failure or a malformed current value fails the whole read; without
/// minimum, maximum and step the field is seen but withheld; otherwise the
/// value must be consistent with its metadata.
pub open spec fn nb_wmi_field_outcome(path: Seq<char>, name: Seq<char>, r: NbWmiFieldReadings) -> Result<
    FieldOutcome,
    ProviderErrorView,
> {
    match r.current {
        Err(f) => if f.kind == IoErrorKind::NotFound {
            Ok(FieldOutcome::Absent)
        } else if f.kind == IoErrorKind::PermissionDenied {
            Err(ProviderErrorView::PermissionDenied("asus-nb-wmi read denied: "@ + path))
        } else {
            Err(ProviderErrorView::Io(f@))
        },
        Ok(raw) => match parse_i32(trim(raw@)) {
            Err(k) => Err(
                ProviderErrorView::Internal(
                    "asus-nb-wmi "@ + name + " malformed current value: "@ + int_error_text(k),
                ),
            ),
            Ok(current) => match (
                metadata_value(r.min_value),
                metadata_value(r.max_value),
                metadata_value(r.scalar_increment),
            ) {
                (Some(min), Some(max), Some(step)) => {
                    let d = match metadata_value(r.default_value) {
                        Some(x) => Some(x as i32),
                        None => None,
                    };
                    match power_limit_check(current as i32, min as i32, max as i32, step as i32, d) {
                        Some(e) => Err(
                            ProviderErrorView::Internal("asus-nb-wmi "@ + name + ": "@ + power_limit_error_text(e)),
                        ),
                        None => Ok(
                            FieldOutcome::Proven(
                                PowerLimitValue {
                                    value: current as i32,
                                    min: min as i32,
                                    max: max as i32,
                                    step: step as i32,
                                    default: d,
                                    unit: Unit::Watts,
                                },
                            ),
                        ),
                    }
                },
                _ => Ok(FieldOutcome::SeenIncomplete),
            },
        },
    }
}

fn metadata_exec(r: &Result<String, IoFailure>) -> (v: Option<i32>)
    ensures
        match metadata_value(*r) {
            Some(x) => v == Some(x as i32),
            None => v is None,
        },
{
    match r {
        Ok(raw) => {
            let t = trimmed(raw.as_str());
            match parse_i32_str(t.as_str()) {
                Ok(x) => Some(x),
                Err(_) => None,
            }
        },
        Err(_) => None,
    }
}

fn read_field(path: &str, name: &str, r: &NbWmiFieldReadings) -> (v: Result<Option<(bool, Option<PowerLimitValue>)>, ProviderError>)
    ensures
        match nb_wmi_field_outcome(path@, name@, *r) {
            Err(e) => v matches Err(err) && err@ == e,
            Ok(FieldOutcome::Absent) => v == Ok::<Option<(bool, Option<PowerLimitValue>)>, ProviderError>(None),
            Ok(FieldOutcome::SeenIncomplete) => v == Ok::<Option<(bool, Option<PowerLimitValue>)>, ProviderError>(
                Some((true, None)),
            ),
            Ok(FieldOutcome::Proven(x)) => v == Ok::<Option<(bool, Option<PowerLimitValue>)>, ProviderError>(
                Some((true, Some(x))),
            ),
        },
{
    let raw = match &r.current {
        Err(f) => {
            return match f.kind {
                IoErrorKind::NotFound => Ok(None),
                IoErrorKind::PermissionDenied => Err(
                    ProviderError::PermissionDenied(concat2("asus-nb-wmi read denied: ", path)),
                ),
                _ => Err(ProviderError::Io(f.clone_failure())),
            };
        },
        Ok(raw) => raw,
    };
    let t = trimmed(raw.as_str());
    let current = match parse_i32_str(t.as_str()) {
        Ok(x) => x,
        Err(k) => {
            let mut m = concat3("asus-nb-wmi ", name, " malformed current value: ");
            m.append(k.text());
            return Err(ProviderError::Internal(m));
        },
    };
    let min = metadata_exec(&r.min_value);
    let max = metadata_exec(&r.max_value);
    let step = metadata_exec(&r.scalar_increment);
    match (min, max, step) {
        (Some(lo), Some(hi), Some(st)) => {
            let default = metadata_exec(&r.default_value);
            match PowerLimitValue::new(current, lo, hi, st, default, Unit::Watts) {
                Ok(v) => Ok(Some((true, Some(v)))),
                Err(e) => {
                    let mut m = concat3("asus-nb-wmi ", name, ": ");
                    m.append(e.text());
                    Err(ProviderError::Internal(m))
                },
            }
        },
        _ => Ok(Some((true, None))),
    }
}

/// The files of the three legacy PPT fields.
#[derive(Debug)]
pub struct NbWmiReadings {
    /// `ppt_pl1_spl*`.
    pub spl: NbWmiFieldReadings,
    /// `ppt_pl2_sppt*`.
    pub sppt: NbWmiFieldReadings,
    /// `ppt_fppt*`.
    pub fppt: NbWmiFieldReadings,
}

/// Names of the fields whose current value was seen.
pub open spec fn seen_names(o: Seq<(Seq<char>, FieldOutcome)>) -> Seq<Seq<char>>
    decreases o.len(),
{
    if o.len() == 0 {
        seq![]
    } else {
        seen_names(o.drop_last()) + if o.last().1 is Absent {
            Seq::<Seq<char>>::empty()
        } else {
            seq![o.last().0]
        }
    }
}

/// The proven fields.
pub open spec fn proven_fields(o: Seq<(PowerLimitField, FieldOutcome)>) -> Seq<(PowerLimitField, PowerLimitValue)>
    decreases o.len(),
{
    if o.len() == 0 {
        seq![]
    } else {
        proven_fields(o.drop_last()) + match o.last().1 {
            FieldOutcome::Proven(v) => seq![(o.last().0, v)],
            _ => Seq::<(PowerLimitField, PowerLimitValue)>::empty(),
        }
    }
}

fn note_field(
    seen: &mut Vec<String>,
    fields: &mut Vec<(PowerLimitField, PowerLimitValue)>,
    field: PowerLimitField,
    outcome: Option<(bool, Option<PowerLimitValue>)>,
)
    requires
        fields_ordered(old(fields)@),
        forall|i: int| 0 <= i < old(fields)@.len() ==> field_rank(#[trigger] old(fields)@[i].0) < field_rank(field),
    ensures
        fields_ordered(final(fields)@),
        forall|i: int| 0 <= i < final(fields)@.len() ==> field_rank(#[trigger] final(fields)@[i].0) <= field_rank(field),
        strs(final(seen)@) == strs(old(seen)@) + if outcome is None {
            Seq::<Seq<char>>::empty()
        } else {
            seq![nb_wmi_field_name(field)]
        },
        final(fields)@ == old(fields)@ + match outcome {
            Some((_, Some(v))) => seq![(field, v)],
            _ => Seq::<(PowerLimitField, PowerLimitValue)>::empty(),
        },
{
    let ghost s0 = strs(seen@);
    let ghost f0 = fields@;
    match outcome {
        None => {
            assert(strs(seen@) =~= s0 + Seq::<Seq<char>>::empty());
            assert(fields@ =~= f0 + Seq::<(PowerLimitField, PowerLimitValue)>::empty());
        },
        Some((_, v)) => {
            seen.push(nb_wmi_field(field).to_owned());
            assert(strs(seen@) =~= s0 + seq![nb_wmi_field_name(field)]);
            match v {
                Some(x) => {
                    proof {
                        lemma_push_ordered(f0, (field, x));
                    }
                    fields.push((field, x));
                    assert(fields@ =~= f0 + seq![(field, x)]);
                },
                None => {
                    assert(fields@ =~= f0 + Seq::<(PowerLimitField, PowerLimitValue)>::empty());
                },
            }
        },
    }
}

impl AsusNbWmiPowerLimitProvider {
    /// The proven legacy PPT fields, in field order. A failing current read
    /// fails the whole read (first field first); when no field is proven the
    /// answer is unsupported and names the current files that were seen.
    pub fn power_limits_from(&self, r: &NbWmiReadings) -> (v: Result<PowerLimits, ProviderError>)
        ensures
            ({
                let spl = nb_wmi_field_outcome(join(self.root@, "ppt_pl1_spl"@), "ppt_pl1_spl"@, r.spl);
                let sppt = nb_wmi_field_outcome(join(self.root@, "ppt_pl2_sppt"@), "ppt_pl2_sppt"@, r.sppt);
                let fppt = nb_wmi_field_outcome(join(self.root@, "ppt_fppt"@), "ppt_fppt"@, r.fppt);
                match (spl, sppt, fppt) {
                    (Err(e), _, _) => v matches Err(err) && err@ == e,
                    (Ok(_), Err(e), _) => v matches Err(err) && err@ == e,
                    (Ok(_), Ok(_), Err(e)) => v matches Err(err) && err@ == e,
                    (Ok(a), Ok(b), Ok(c)) => {
                        let fields = proven_fields(
                            seq![
                                (PowerLimitField::Spl, a),
                                (PowerLimitField::Sppt, b),
                                (PowerLimitField::Fppt, c),
                            ],
                        );
                        let seen = seen_names(
                            seq![("ppt_pl1_spl"@, a), ("ppt_pl2_sppt"@, b), ("ppt_fppt"@, c)],
                        );
                        if fields.len() == 0 {
                            v matches Err(err) && err@ == ProviderErrorView::Unsupported(
                                "asus-nb-wmi PPT current paths seen: "@ + debug_strings(seen)
                                    + ", but no field has complete current+metadata evidence"@,
                            )
                        } else {
                            v matches Ok(l) && l.fields@ == fields
                        }
                    },
                }
            }),
            v matches Ok(l) ==> l.wf(),
    {
        let mut seen: Vec<String> = Vec::new();
        let mut fields: Vec<(PowerLimitField, PowerLimitValue)> = Vec::new();
        assert(strs(seen@) =~= Seq::<Seq<char>>::empty());
        let p1 = self.path("ppt_pl1_spl");
        let a = match read_field(p1.as_str(), "ppt_pl1_spl", &r.spl) {
            Ok(o) => o,
            Err(e) => {
                return Err(e);
            },
        };
        note_field(&mut seen, &mut fields, PowerLimitField::Spl, a);
        let p2 = self.path("ppt_pl2_sppt");
        let b = match read_field(p2.as_str(), "ppt_pl2_sppt", &r.sppt) {
            Ok(o) => o,
            Err(e) => {
                return Err(e);
            },
        };
        note_field(&mut seen, &mut fields, PowerLimitField::Sppt, b);
        let p3 = self.path("ppt_fppt");
        let c = match read_field(p3.as_str(), "ppt_fppt", &r.fppt) {
            Ok(o) => o,
            Err(e) => {
                return Err(e);
            },
        };
        note_field(&mut seen, &mut fields, PowerLimitField::Fppt, c);
        let ghost spl = nb_wmi_field_outcome(join(self.root@, "ppt_pl1_spl"@), "ppt_pl1_spl"@, r.spl);
        let ghost sppt = nb_wmi_field_outcome(join(self.root@, "ppt_pl2_sppt"@), "ppt_pl2_sppt"@, r.sppt);
        let ghost fppt = nb_wmi_field_outcome(join(self.root@, "ppt_fppt"@), "ppt_fppt"@, r.fppt);
        proof {
            let oa = spl->Ok_0;
            let ob = sppt->Ok_0;
            let oc = fppt->Ok_0;
            let fs = seq![(PowerLimitField::Spl, oa), (PowerLimitField::Sppt, ob), (PowerLimitField::Fppt, oc)];
            let ns = seq![("ppt_pl1_spl"@, oa), ("ppt_pl2_sppt"@, ob), ("ppt_fppt"@, oc)];
            assert(fs.drop_last().drop_last().drop_last() =~= Seq::<(PowerLimitField, FieldOutcome)>::empty());
            assert(fs.drop_last().drop_last() =~= seq![(PowerLimitField::Spl, oa)]);
            assert(fs.drop_last() =~= seq![(PowerLimitField::Spl, oa), (PowerLimitField::Sppt, ob)]);
            assert(ns.drop_last().drop_last().drop_last() =~= Seq::<(Seq<char>, FieldOutcome)>::empty());
            assert(ns.drop_last().drop_last() =~= seq![("ppt_pl1_spl"@, oa)]);
            assert(ns.drop_last() =~= seq![("ppt_pl1_spl"@, oa), ("ppt_pl2_sppt"@, ob)]);
            reveal_with_fuel(proven_fields, 4);
            reveal_with_fuel(seen_names, 4);
            assert(fields@ =~= proven_fields(fs));
            assert(strs(seen@) =~= seen_names(ns));
        }
        if fields.len() == 0 {
            let d = debug_string_list(&seen);
            let mut m = concat2("asus-nb-wmi PPT current paths seen: ", d.as_str());
            m.append(", but no field has complete current+metadata evidence");
            return Err(ProviderError::Unsupported(m));
        }
        Ok(PowerLimits { fields })
    }
}

} // verus!
