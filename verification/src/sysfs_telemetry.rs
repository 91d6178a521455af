//! Read-only sysfs telemetry.
//!
//! Devices are discovered dynamically below `class/hwmon` and
//! `class/power_supply` of a configurable sysfs root; no `hwmonN`, `BAT1` or
//! `ACAD` path is hard-coded. The host reads every file once per snapshot
//! and hands the contents (or the read failures) to
//! [`telemetry_from_readings`], which decides what each reading means:
//!
//! - a missing optional file gives `None` and does not break the snapshot;
//! - a discovered source that fails gives `None` for its group plus one gap
//!   record (`Denied`, `Unavailable` or `Malformed`), so that a failing
//!   source is distinguishable from structural absence;
//! - discovery metadata (`hwmon/name`, `power_supply/type`) that cannot be
//!   read only skips that entry;
//! - unproven values are never derived: `energy_now/full`, total and battery
//!   power stay `None`, fan duty cycles are `None`, and the dGPU power state
//!   stays `Unknown`.
use vstd::prelude::*;

use crate::diagnostics::DiagnosticEntry;

use crate::error::{IoErrorKind, IoFailure};
use crate::gpu::GpuPowerState;
use crate::paths::{below, path_below};
use crate::telemetry::{
    fan_views, opt_battery, opt_int, now, BatteryTelemetry, BatteryView, FanId, FanIdView,
    FanTelemetry, FanTelemetryQuality, FanView, MilliWatt, Percent, PowerTelemetry, Rpm,
    Telemetry, TelemetryField, TelemetryFieldGap, TemperatureC, TEMPERATURE_C_MAX,
    TEMPERATURE_C_MIN,
};
use crate::text::{chars_of, parse_unsigned, parse_unsigned_at, str_eq, trim, trim_bounds,
    string_of};

verus! {

/// Read-only sysfs telemetry provider over a sysfs root (`/sys` in
/// production, a fixture tree in tests). Construction performs no I/O.
#[derive(Debug, Clone)]
pub struct SysfsTelemetryProvider {
    /// The sysfs root.
    pub sysfs_root: String,
}

impl SysfsTelemetryProvider {
    /// Provider diagnostics.
    pub fn diagnostics(&self) -> (v: Vec<DiagnosticEntry>)
        ensures
            v@.len() == 1,
            v@[0].key@ == "provider.sysfs-telemetry"@,
            v@[0].value@ == "read-only sysfs hwmon/power_supply telemetry backend"@,
    {
        let mut v = Vec::new();
        v.push(DiagnosticEntry::new("provider.sysfs-telemetry", "read-only sysfs hwmon/power_supply telemetry backend"));
        v
    }

    /// A provider over the given sysfs root.
    pub fn new(sysfs_root: &str) -> (p: Self)
        ensures
            p.sysfs_root@ == sysfs_root@,
    {
        SysfsTelemetryProvider { sysfs_root: sysfs_root.to_owned() }
    }

    /// The directory of hwmon devices.
    pub fn hwmon_dir(&self) -> (p: String)
        ensures
            p@ == below(self.sysfs_root@, "class/hwmon"@),
    {
        path_below(self.sysfs_root.as_str(), "class/hwmon")
    }

    /// The directory of power supplies.
    pub fn power_supply_dir(&self) -> (p: String)
        ensures
            p@ == below(self.sysfs_root@, "class/power_supply"@),
    {
        path_below(self.sysfs_root.as_str(), "class/power_supply")
    }
}

impl Default for SysfsTelemetryProvider {
    /// The live system: `/sys`.
    fn default() -> (p: Self)
        ensures
            p.sysfs_root@ == "/sys"@,
    {
        SysfsTelemetryProvider { sysfs_root: "/sys".to_owned() }
    }
}

/// The files of one `class/hwmon/*` entry. A list shorter than the number of
/// indices probed means the remaining files do not exist.
#[derive(Debug)]
pub struct HwmonReadings {
    /// `name`.
    pub name: Result<String, IoFailure>,
    /// `temp1_label` .. `temp10_label`.
    pub temp_labels: Vec<Result<String, IoFailure>>,
    /// `temp1_input` .. `temp10_input`.
    pub temp_inputs: Vec<Result<String, IoFailure>>,
    /// `power1_input`.
    pub power1_input: Result<String, IoFailure>,
    /// `fan1_label` .. `fan4_label`.
    pub fan_labels: Vec<Result<String, IoFailure>>,
    /// `fan1_input` .. `fan4_input`.
    pub fan_inputs: Vec<Result<String, IoFailure>>,
}

/// The files of one `class/power_supply/*` entry.
#[derive(Debug)]
pub struct PowerSupplyReadings {
    /// `type`.
    pub supply_type: Result<String, IoFailure>,
    /// `capacity`.
    pub capacity: Result<String, IoFailure>,
    /// `status`.
    pub status: Result<String, IoFailure>,
    /// `cycle_count`.
    pub cycle_count: Result<String, IoFailure>,
    /// `charge_full`.
    pub charge_full: Result<String, IoFailure>,
    /// `charge_full_design`.
    pub charge_full_design: Result<String, IoFailure>,
    /// `online`.
    pub online: Result<String, IoFailure>,
    /// Whether `online` exists.
    pub online_exists: bool,
}

// ---------------------------------------------------------------------------
// Meaning of one file
// ---------------------------------------------------------------------------

/// The gap class of a failed read: permission failures are `Denied`, other
/// I/O failures `Unavailable`.
pub open spec fn io_gap(kind: IoErrorKind) -> TelemetryFieldGap {
    if kind == IoErrorKind::PermissionDenied {
        TelemetryFieldGap::Denied
    } else {
        TelemetryFieldGap::Unavailable
    }
}

/// A file as text: absent when not found, the trimmed content when it is
/// non-empty, `Malformed` when it is blank, and the I/O gap otherwise.
pub open spec fn text_of(r: Result<String, IoFailure>) -> Result<Option<Seq<char>>, TelemetryFieldGap> {
    match r {
        Err(f) => if f.kind == IoErrorKind::NotFound {
            Ok(None)
        } else {
            Err(io_gap(f.kind))
        },
        Ok(c) => if trim(c@).len() == 0 {
            Err(TelemetryFieldGap::Malformed)
        } else {
            Ok(Some(trim(c@)))
        },
    }
}

/// The `i`-th file of a probed list; beyond the list the file is absent.
pub open spec fn text_at(v: Seq<Result<String, IoFailure>>, i: int) -> Result<
    Option<Seq<char>>,
    TelemetryFieldGap,
> {
    if 0 <= i < v.len() {
        text_of(v[i])
    } else {
        Ok(None)
    }
}

/// A file holding an unsigned decimal; unparsable text is `Malformed`.
pub open spec fn u64_of_text(t: Result<Option<Seq<char>>, TelemetryFieldGap>) -> Result<
    Option<int>,
    TelemetryFieldGap,
> {
    match t {
        Err(g) => Err(g),
        Ok(None) => Ok(None),
        Ok(Some(s)) => match parse_unsigned(s, 10, u64::MAX as nat) {
            Ok(v) => Ok(Some(v as int)),
            Err(_) => Err(TelemetryFieldGap::Malformed),
        },
    }
}

/// Apply a range-checked conversion to a present value.
pub open spec fn convert(
    raw: Result<Option<int>, TelemetryFieldGap>,
    ok: spec_fn(int) -> bool,
    value: spec_fn(int) -> int,
) -> Result<Option<int>, TelemetryFieldGap> {
    match raw {
        Err(g) => Err(g),
        Ok(None) => Ok(None),
        Ok(Some(v)) => if ok(v) {
            Ok(Some(value(v)))
        } else {
            Err(TelemetryFieldGap::Malformed)
        },
    }
}

/// Millidegrees to whole °C, truncating; outside the temperature range the
/// value is `Malformed`.
pub open spec fn temp_of(t: Result<Option<Seq<char>>, TelemetryFieldGap>) -> Result<
    Option<int>,
    TelemetryFieldGap,
> {
    convert(
        u64_of_text(t),
        |raw: int| raw / 1000 <= i16::MAX && TEMPERATURE_C_MIN <= raw / 1000 <= TEMPERATURE_C_MAX,
        |raw: int| raw / 1000,
    )
}

/// Revolutions per minute; beyond `u16` the value is `Malformed`.
pub open spec fn rpm_of(t: Result<Option<Seq<char>>, TelemetryFieldGap>) -> Result<
    Option<int>,
    TelemetryFieldGap,
> {
    convert(u64_of_text(t), |raw: int| raw <= u16::MAX, |raw: int| raw)
}

/// Microwatts to whole milliwatts, truncating; beyond `u32` the value is
/// `Malformed`.
pub open spec fn milliwatt_of(t: Result<Option<Seq<char>>, TelemetryFieldGap>) -> Result<
    Option<int>,
    TelemetryFieldGap,
> {
    convert(u64_of_text(t), |raw: int| raw / 1000 <= u32::MAX, |raw: int| raw / 1000)
}

/// A percentage; beyond 100 the value is `Malformed`.
pub open spec fn percent_of(t: Result<Option<Seq<char>>, TelemetryFieldGap>) -> Result<
    Option<int>,
    TelemetryFieldGap,
> {
    convert(u64_of_text(t), |raw: int| raw <= u8::MAX && raw <= 100, |raw: int| raw)
}

/// AC `online`: 0 is offline, 1 online, anything else `Malformed`.
pub open spec fn online_of(t: Result<Option<Seq<char>>, TelemetryFieldGap>) -> Result<
    Option<bool>,
    TelemetryFieldGap,
> {
    match u64_of_text(t) {
        Err(g) => Err(g),
        Ok(None) => Ok(None),
        Ok(Some(v)) => if v == 0 {
            Ok(Some(false))
        } else if v == 1 {
            Ok(Some(true))
        } else {
            Err(TelemetryFieldGap::Malformed)
        },
    }
}

/// The dGPU edge temperature: the input of the first `temp{i}_label` (from
/// `i`) that reads `edge`, or `temp1_input` when no label does. A label that
/// fails to read ends the search with its gap.
pub open spec fn edge_temp_from(
    labels: Seq<Result<String, IoFailure>>,
    inputs: Seq<Result<String, IoFailure>>,
    i: int,
) -> Result<Option<int>, TelemetryFieldGap>
    decreases 10 - i,
{
    if i >= 10 || i < 0 {
        temp_of(text_at(inputs, 0))
    } else {
        match text_at(labels, i) {
            Err(g) => Err(g),
            Ok(Some(l)) => if l == "edge"@ {
                temp_of(text_at(inputs, i))
            } else {
                edge_temp_from(labels, inputs, i + 1)
            },
            Ok(None) => edge_temp_from(labels, inputs, i + 1),
        }
    }
}

/// The fan a hwmon label names.
pub open spec fn fan_id_of(label: Seq<char>) -> FanIdView {
    if label == "cpu_fan"@ {
        FanIdView::Cpu
    } else if label == "gpu_fan"@ {
        FanIdView::Gpu
    } else if label == "mid_fan"@ {
        FanIdView::Mid
    } else if label == "system_fan"@ {
        FanIdView::System
    } else {
        FanIdView::Other(label)
    }
}

/// The ASUS hwmon fans among the first `k` fan indices, and the first RPM
/// read failure. A fan whose label is missing or unreadable is skipped; a
/// fan whose RPM is missing is skipped; a fan whose RPM fails is skipped and
/// its failure kept if it is the first.
pub open spec fn fans_upto(
    labels: Seq<Result<String, IoFailure>>,
    inputs: Seq<Result<String, IoFailure>>,
    k: int,
) -> (Seq<FanView>, Option<TelemetryFieldGap>)
    decreases k,
{
    if k <= 0 {
        (seq![], None)
    } else {
        let (fans, first) = fans_upto(labels, inputs, k - 1);
        match text_at(labels, k - 1) {
            Ok(Some(label)) => match rpm_of(text_at(inputs, k - 1)) {
                Err(g) => (fans, if first is None {
                    Some(g)
                } else {
                    first
                }),
                Ok(None) => (fans, first),
                Ok(Some(rpm)) => (
                    fans.push(
                        FanView {
                            source: "asus-hwmon"@,
                            fan: fan_id_of(label),
                            label,
                            rpm,
                            percent: None,
                            quality: FanTelemetryQuality::Complete,
                        },
                    ),
                    first,
                ),
            },
            _ => (fans, first),
        }
    }
}

/// Battery health from the `charge_full` and `charge_full_design` readings:
/// the full charge as a percentage of the design charge, capped at 100. It is
/// optional metadata, so it is absent, never a failure, when either reading
/// is absent, unreadable or malformed, when the design charge is 0, or when
/// the percentage computation overflows.
pub open spec fn health_of(
    full: Result<Option<int>, TelemetryFieldGap>,
    design: Result<Option<int>, TelemetryFieldGap>,
) -> Option<int> {
    match (full, design) {
        (Ok(Some(f)), Ok(Some(d))) => if d > 0 && f * 100 <= u64::MAX {
            if (f * 100) / d > 100 {
                Some(100)
            } else {
                Some((f * 100) / d)
            }
        } else {
            None
        },
        _ => None,
    }
}

/// A battery: absent without a `capacity`; otherwise its charge, health,
/// cycle count (dropped when unreadable or beyond `u32`) and status text
/// (empty when absent). Only failures of the required `capacity` and
/// `status`, in that order, fail the battery; the optional health and cycle
/// count degrade to absent.
pub open spec fn battery_of(p: PowerSupplyReadings) -> Result<Option<BatteryView>, TelemetryFieldGap> {
    match percent_of(text_of(p.capacity)) {
        Err(g) => Err(g),
        Ok(None) => Ok(None),
        Ok(Some(pct)) => match text_of(p.status) {
            Err(g) => Err(g),
            Ok(status) => Ok(
                Some(
                    BatteryView {
                        percent: pct,
                        capacity: health_of(
                            u64_of_text(text_of(p.charge_full)),
                            u64_of_text(text_of(p.charge_full_design)),
                        ),
                        energy_now: None,
                        energy_full: None,
                        charge_cycles: match u64_of_text(text_of(p.cycle_count)) {
                            Ok(Some(c)) => if c <= u32::MAX {
                                Some(c as u32)
                            } else {
                                None
                            },
                            _ => None,
                        },
                        state: match status {
                            Some(s) => s,
                            None => seq![],
                        },
                    },
                ),
            ),
        },
    }
}

// ---------------------------------------------------------------------------
// Executable readers
// ---------------------------------------------------------------------------

fn io_gap_of(kind: IoErrorKind) -> (g: TelemetryFieldGap)
    ensures
        g == io_gap(kind),
{
    match kind {
        IoErrorKind::PermissionDenied => TelemetryFieldGap::Denied,
        _ => TelemetryFieldGap::Unavailable,
    }
}

/// The meaning of a file as text.
pub fn read_text(r: &Result<String, IoFailure>) -> (t: Result<Option<String>, TelemetryFieldGap>)
    ensures
        match text_of(*r) {
            Err(g) => t == Err::<Option<String>, TelemetryFieldGap>(g),
            Ok(None) => t == Ok::<Option<String>, TelemetryFieldGap>(None),
            Ok(Some(s)) => t matches Ok(Some(v)) && v@ == s,
        },
{
    match r {
        Err(f) => {
            match f.kind {
                IoErrorKind::NotFound => Ok(None),
                k => Err(io_gap_of(k)),
            }
        },
        Ok(c) => {
            let cs = chars_of(c.as_str());
            let (a, b) = trim_bounds(&cs, 0, cs.len());
            assert(cs@.subrange(0, cs@.len() as int) =~= c@);
            if a == b {
                Err(TelemetryFieldGap::Malformed)
            } else {
                Ok(Some(string_of(&cs, a, b)))
            }
        },
    }
}

/// The meaning of a file holding an unsigned decimal.
pub fn read_u64_value(r: &Result<String, IoFailure>) -> (v: Result<Option<u64>, TelemetryFieldGap>)
    ensures
        match u64_of_text(text_of(*r)) {
            Err(g) => v == Err::<Option<u64>, TelemetryFieldGap>(g),
            Ok(None) => v == Ok::<Option<u64>, TelemetryFieldGap>(None),
            Ok(Some(x)) => v == Ok::<Option<u64>, TelemetryFieldGap>(Some(x as u64)),
        },
{
    match read_text(r) {
        Err(g) => Err(g),
        Ok(None) => Ok(None),
        Ok(Some(t)) => {
            let cs = chars_of(t.as_str());
            assert(cs@.subrange(0, cs@.len() as int) =~= cs@);
            match parse_unsigned_at(&cs, 0, cs.len(), 10, u64::MAX) {
                Ok(x) => Ok(Some(x)),
                Err(_) => Err(TelemetryFieldGap::Malformed),
            }
        },
    }
}

fn read_at(v: &Vec<Result<String, IoFailure>>, i: usize) -> (r: Result<Option<String>, TelemetryFieldGap>)
    ensures
        match text_at(v@, i as int) {
            Err(g) => r == Err::<Option<String>, TelemetryFieldGap>(g),
            Ok(None) => r == Ok::<Option<String>, TelemetryFieldGap>(None),
            Ok(Some(s)) => r matches Ok(Some(t)) && t@ == s,
        },
{
    if i < v.len() {
        read_text(&v[i])
    } else {
        Ok(None)
    }
}

fn u64_at(v: &Vec<Result<String, IoFailure>>, i: usize) -> (r: Result<Option<u64>, TelemetryFieldGap>)
    ensures
        match u64_of_text(text_at(v@, i as int)) {
            Err(g) => r == Err::<Option<u64>, TelemetryFieldGap>(g),
            Ok(None) => r == Ok::<Option<u64>, TelemetryFieldGap>(None),
            Ok(Some(x)) => r == Ok::<Option<u64>, TelemetryFieldGap>(Some(x as u64)),
        },
{
    if i < v.len() {
        read_u64_value(&v[i])
    } else {
        Ok(None)
    }
}

/// A temperature from a raw millidegree reading.
fn temp_from_raw(raw: Result<Option<u64>, TelemetryFieldGap>) -> (r: Result<Option<TemperatureC>, TelemetryFieldGap>)
    ensures
        match convert(
            match raw {
                Err(g) => Err(g),
                Ok(None) => Ok(None),
                Ok(Some(x)) => Ok(Some(x as int)),
            },
            |raw: int| raw / 1000 <= i16::MAX && TEMPERATURE_C_MIN <= raw / 1000 <= TEMPERATURE_C_MAX,
            |raw: int| raw / 1000,
        ) {
            Err(g) => r == Err::<Option<TemperatureC>, TelemetryFieldGap>(g),
            Ok(None) => r == Ok::<Option<TemperatureC>, TelemetryFieldGap>(None),
            Ok(Some(c)) => r matches Ok(Some(t)) && t@ == c,
        },
{
    match raw {
        Err(g) => Err(g),
        Ok(None) => Ok(None),
        Ok(Some(x)) => {
            let c = x / 1000;
            if c > 32767 {
                return Err(TelemetryFieldGap::Malformed);
            }
            match TemperatureC::new(c as i16) {
                Ok(t) => Ok(Some(t)),
                Err(_) => Err(TelemetryFieldGap::Malformed),
            }
        },
    }
}

/// A temperature file.
pub fn read_temp(r: &Result<String, IoFailure>) -> (t: Result<Option<TemperatureC>, TelemetryFieldGap>)
    ensures
        match temp_of(text_of(*r)) {
            Err(g) => t == Err::<Option<TemperatureC>, TelemetryFieldGap>(g),
            Ok(None) => t == Ok::<Option<TemperatureC>, TelemetryFieldGap>(None),
            Ok(Some(c)) => t matches Ok(Some(v)) && v@ == c,
        },
{
    temp_from_raw(read_u64_value(r))
}

fn temp_at(v: &Vec<Result<String, IoFailure>>, i: usize) -> (t: Result<Option<TemperatureC>, TelemetryFieldGap>)
    ensures
        match temp_of(text_at(v@, i as int)) {
            Err(g) => t == Err::<Option<TemperatureC>, TelemetryFieldGap>(g),
            Ok(None) => t == Ok::<Option<TemperatureC>, TelemetryFieldGap>(None),
            Ok(Some(c)) => t matches Ok(Some(x)) && x@ == c,
        },
{
    temp_from_raw(u64_at(v, i))
}

/// A fan-speed file.
pub fn read_rpm(r: &Result<String, IoFailure>) -> (t: Result<Option<Rpm>, TelemetryFieldGap>)
    ensures
        match rpm_of(text_of(*r)) {
            Err(g) => t == Err::<Option<Rpm>, TelemetryFieldGap>(g),
            Ok(None) => t == Ok::<Option<Rpm>, TelemetryFieldGap>(None),
            Ok(Some(c)) => t matches Ok(Some(v)) && v@ == c,
        },
{
    match read_u64_value(r) {
        Err(g) => Err(g),
        Ok(None) => Ok(None),
        Ok(Some(x)) => {
            if x > 65535 {
                return Err(TelemetryFieldGap::Malformed);
            }
            match Rpm::new(x as u16) {
                Ok(v) => Ok(Some(v)),
                Err(_) => Err(TelemetryFieldGap::Malformed),
            }
        },
    }
}

/// A power file in microwatts.
pub fn read_milliwatt(r: &Result<String, IoFailure>) -> (t: Result<Option<MilliWatt>, TelemetryFieldGap>)
    ensures
        match milliwatt_of(text_of(*r)) {
            Err(g) => t == Err::<Option<MilliWatt>, TelemetryFieldGap>(g),
            Ok(None) => t == Ok::<Option<MilliWatt>, TelemetryFieldGap>(None),
            Ok(Some(c)) => t matches Ok(Some(v)) && v@ == c,
        },
{
    match read_u64_value(r) {
        Err(g) => Err(g),
        Ok(None) => Ok(None),
        Ok(Some(x)) => {
            let mw = x / 1000;
            if mw > 0xffff_ffff {
                return Err(TelemetryFieldGap::Malformed);
            }
            match MilliWatt::new(mw as u32) {
                Ok(v) => Ok(Some(v)),
                Err(_) => Err(TelemetryFieldGap::Malformed),
            }
        },
    }
}

/// A percentage file.
pub fn read_percent(r: &Result<String, IoFailure>) -> (t: Result<Option<Percent>, TelemetryFieldGap>)
    ensures
        match percent_of(text_of(*r)) {
            Err(g) => t == Err::<Option<Percent>, TelemetryFieldGap>(g),
            Ok(None) => t == Ok::<Option<Percent>, TelemetryFieldGap>(None),
            Ok(Some(c)) => t matches Ok(Some(v)) && v@ == c,
        },
{
    match read_u64_value(r) {
        Err(g) => Err(g),
        Ok(None) => Ok(None),
        Ok(Some(x)) => {
            if x > 255 {
                return Err(TelemetryFieldGap::Malformed);
            }
            match Percent::new(x as u8) {
                Ok(v) => Ok(Some(v)),
                Err(_) => Err(TelemetryFieldGap::Malformed),
            }
        },
    }
}

/// An AC `online` file.
pub fn read_online(r: &Result<String, IoFailure>) -> (t: Result<Option<bool>, TelemetryFieldGap>)
    ensures
        t == online_of(text_of(*r)),
{
    match read_u64_value(r) {
        Err(g) => Err(g),
        Ok(None) => Ok(None),
        Ok(Some(0)) => Ok(Some(false)),
        Ok(Some(1)) => Ok(Some(true)),
        Ok(Some(_)) => Err(TelemetryFieldGap::Malformed),
    }
}

/// The dGPU edge temperature of an `amdgpu` hwmon entry.
pub fn read_edge_temp(e: &HwmonReadings) -> (t: Result<Option<TemperatureC>, TelemetryFieldGap>)
    ensures
        match edge_temp_from(e.temp_labels@, e.temp_inputs@, 0) {
            Err(g) => t == Err::<Option<TemperatureC>, TelemetryFieldGap>(g),
            Ok(None) => t == Ok::<Option<TemperatureC>, TelemetryFieldGap>(None),
            Ok(Some(c)) => t matches Ok(Some(v)) && v@ == c,
        },
{
    let mut i: usize = 0;
    while i < 10
        invariant
            0 <= i <= 10,
            edge_temp_from(e.temp_labels@, e.temp_inputs@, 0) == edge_temp_from(
                e.temp_labels@,
                e.temp_inputs@,
                i as int,
            ),
        decreases 10 - i,
    {
        match read_at(&e.temp_labels, i) {
            Err(g) => {
                return Err(g);
            },
            Ok(Some(l)) => {
                if str_eq(l.as_str(), "edge") {
                    return temp_at(&e.temp_inputs, i);
                }
            },
            Ok(None) => {},
        }
        i = i + 1;
    }
    temp_at(&e.temp_inputs, 0)
}

fn fan_id_from_label(label: &str) -> (f: FanId)
    ensures
        f@ == fan_id_of(label@),
{
    if str_eq(label, "cpu_fan") {
        FanId::Cpu
    } else if str_eq(label, "gpu_fan") {
        FanId::Gpu
    } else if str_eq(label, "mid_fan") {
        FanId::Mid
    } else if str_eq(label, "system_fan") {
        FanId::System
    } else {
        FanId::Other(label.to_owned())
    }
}

fn rpm_at(v: &Vec<Result<String, IoFailure>>, i: usize) -> (t: Result<Option<Rpm>, TelemetryFieldGap>)
    ensures
        match rpm_of(text_at(v@, i as int)) {
            Err(g) => t == Err::<Option<Rpm>, TelemetryFieldGap>(g),
            Ok(None) => t == Ok::<Option<Rpm>, TelemetryFieldGap>(None),
            Ok(Some(c)) => t matches Ok(Some(x)) && x@ == c,
        },
{
    if i < v.len() {
        read_rpm(&v[i])
    } else {
        Ok(None)
    }
}

/// The ASUS hwmon fans (indices 1 to 4) and the first fan-speed failure.
/// Fan duty cycles are never derived: no maximum speed is proven.
pub fn read_asus_fans(e: &HwmonReadings) -> (r: (Vec<FanTelemetry>, Option<TelemetryFieldGap>))
    ensures
        fan_views(r.0@) == fans_upto(e.fan_labels@, e.fan_inputs@, 4).0,
        r.1 == fans_upto(e.fan_labels@, e.fan_inputs@, 4).1,
{
    let mut fans: Vec<FanTelemetry> = Vec::new();
    let mut first: Option<TelemetryFieldGap> = None;
    let mut i: usize = 0;
    assert(fan_views(fans@) =~= Seq::<FanView>::empty());
    while i < 4
        invariant
            0 <= i <= 4,
            fan_views(fans@) == fans_upto(e.fan_labels@, e.fan_inputs@, i as int).0,
            first == fans_upto(e.fan_labels@, e.fan_inputs@, i as int).1,
        decreases 4 - i,
    {
        match read_at(&e.fan_labels, i) {
            Ok(Some(label)) => {
                match rpm_at(&e.fan_inputs, i) {
                    Err(g) => {
                        if first.is_none() {
                            first = Some(g);
                        }
                    },
                    Ok(None) => {},
                    Ok(Some(rpm)) => {
                        let fan = fan_id_from_label(label.as_str());
                        let f = FanTelemetry {
                            source: "asus-hwmon".to_owned(),
                            fan,
                            label,
                            rpm,
                            percent: None,
                            quality: FanTelemetryQuality::Complete,
                        };
                        let ghost before = fan_views(fans@);
                        fans.push(f);
                        assert(fan_views(fans@) =~= before.push(f@));
                    },
                }
            },
            _ => {},
        }
        i = i + 1;
    }
    (fans, first)
}

/// Battery health from the full and design charge readings.
fn battery_health(
    full: Result<Option<u64>, TelemetryFieldGap>,
    design: Result<Option<u64>, TelemetryFieldGap>,
) -> (r: Option<Percent>)
    ensures
        match health_of(
            match full {
                Ok(Some(f)) => Ok(Some(f as int)),
                Ok(None) => Ok(None),
                Err(g) => Err(g),
            },
            match design {
                Ok(Some(d)) => Ok(Some(d as int)),
                Ok(None) => Ok(None),
                Err(g) => Err(g),
            },
        ) {
            None => r is None,
            Some(c) => r matches Some(x) && x@ == c,
        },
{
    match (full, design) {
        (Ok(Some(f)), Ok(Some(d))) => {
            if d == 0 {
                return None;
            }
            match f.checked_mul(100) {
                None => None,
                Some(scaled) => {
                    let pct = scaled / d;
                    let clamped: u64 = if pct > 100 {
                        100
                    } else {
                        pct
                    };
                    match Percent::new(clamped as u8) {
                        Ok(p) => Some(p),
                        Err(_) => None,
                    }
                },
            }
        },
        _ => None,
    }
}

/// The battery of a `Battery` power supply.
pub fn read_battery(p: &PowerSupplyReadings) -> (r: Result<Option<BatteryTelemetry>, TelemetryFieldGap>)
    ensures
        match battery_of(*p) {
            Err(g) => r == Err::<Option<BatteryTelemetry>, TelemetryFieldGap>(g),
            Ok(None) => r matches Ok(None),
            Ok(Some(b)) => r matches Ok(Some(x)) && x@ == b,
        },
{
    let percent = match read_percent(&p.capacity) {
        Err(g) => {
            return Err(g);
        },
        Ok(None) => {
            return Ok(None);
        },
        Ok(Some(v)) => v,
    };
    let status = match read_text(&p.status) {
        Err(g) => {
            return Err(g);
        },
        Ok(Some(t)) => t,
        Ok(None) => String::new(),
    };
    let charge_cycles = match read_u64_value(&p.cycle_count) {
        Ok(Some(c)) => if c <= 0xffff_ffff {
            Some(c as u32)
        } else {
            None
        },
        _ => None,
    };
    let capacity = battery_health(read_u64_value(&p.charge_full), read_u64_value(&p.charge_full_design));
    Ok(
        Some(
            BatteryTelemetry {
                percent,
                capacity,
                energy_now: None,
                energy_full: None,
                charge_cycles,
                state: status,
            },
        ),
    )
}

// ---------------------------------------------------------------------------
// The snapshot
// ---------------------------------------------------------------------------

/// What the snapshot has collected so far.
pub struct TelemetryState {
    /// CPU temperature (°C).
    pub cpu_temp: Option<int>,
    /// GPU edge temperature (°C).
    pub gpu_temp: Option<int>,
    /// GPU power (mW).
    pub gpu_power: Option<int>,
    /// Fan readings.
    pub fans: Seq<FanView>,
    /// AC adapter online.
    pub ac_online: Option<bool>,
    /// Battery readings.
    pub battery: Option<BatteryView>,
    /// Gap evidence.
    pub gaps: Seq<(TelemetryField, TelemetryFieldGap)>,
}

/// Nothing collected yet.
pub open spec fn initial_state() -> TelemetryState {
    TelemetryState {
        cpu_temp: None,
        gpu_temp: None,
        gpu_power: None,
        fans: seq![],
        ac_online: None,
        battery: None,
        gaps: seq![],
    }
}

/// Record a gap for `field` unless one is already recorded: the first gap
/// of a group wins.
pub open spec fn add_gap(
    gaps: Seq<(TelemetryField, TelemetryFieldGap)>,
    field: TelemetryField,
    gap: TelemetryFieldGap,
) -> Seq<(TelemetryField, TelemetryFieldGap)> {
    if exists|i: int| 0 <= i < gaps.len() && (#[trigger] gaps[i]).0 == field {
        gaps
    } else {
        gaps.push((field, gap))
    }
}

/// One hwmon entry: `k10temp` sets the CPU temperature, `amdgpu` the GPU
/// edge temperature and power, `asus` the fans (a fully failing fan set is
/// one `Fans` gap); an entry whose name cannot be read, or any other name,
/// changes nothing. Later entries of the same kind replace earlier values.
pub open spec fn hwmon_step(st: TelemetryState, e: HwmonReadings) -> TelemetryState {
    match text_of(e.name) {
        Ok(Some(name)) => if name == "k10temp"@ {
            match temp_of(text_at(e.temp_inputs@, 0)) {
                Ok(v) => TelemetryState { cpu_temp: v, ..st },
                Err(g) => TelemetryState { gaps: add_gap(st.gaps, TelemetryField::CpuTemp, g), ..st },
            }
        } else if name == "amdgpu"@ {
            let st1 = match edge_temp_from(e.temp_labels@, e.temp_inputs@, 0) {
                Ok(v) => TelemetryState { gpu_temp: v, ..st },
                Err(g) => TelemetryState { gaps: add_gap(st.gaps, TelemetryField::GpuTemp, g), ..st },
            };
            match milliwatt_of(text_of(e.power1_input)) {
                Ok(v) => TelemetryState { gpu_power: v, ..st1 },
                Err(g) => TelemetryState {
                    gaps: add_gap(st1.gaps, TelemetryField::GpuPower, g),
                    ..st1
                },
            }
        } else if name == "asus"@ {
            let (fans, first) = fans_upto(e.fan_labels@, e.fan_inputs@, 4);
            TelemetryState {
                fans,
                gaps: if fans.len() == 0 && first is Some {
                    add_gap(st.gaps, TelemetryField::Fans, first.unwrap())
                } else {
                    st.gaps
                },
                ..st
            }
        } else {
            st
        },
        _ => st,
    }
}

/// One power supply: the first `Battery` that yields a reading (or fails)
/// sets the battery; any other explicit type with an `online` file sets the
/// AC state unless it is already known; an unreadable type changes nothing.
pub open spec fn supply_step(st: TelemetryState, p: PowerSupplyReadings) -> TelemetryState {
    match text_of(p.supply_type) {
        Ok(Some(t)) => if t == "Battery"@ {
            if st.battery is None {
                match battery_of(p) {
                    Ok(b) => TelemetryState { battery: b, ..st },
                    Err(g) => TelemetryState {
                        gaps: add_gap(st.gaps, TelemetryField::Battery, g),
                        ..st
                    },
                }
            } else {
                st
            }
        } else if st.ac_online is None && p.online_exists {
            match online_of(text_of(p.online)) {
                Ok(v) => TelemetryState { ac_online: v, ..st },
                Err(g) => TelemetryState { gaps: add_gap(st.gaps, TelemetryField::AcOnline, g), ..st },
            }
        } else {
            st
        },
        _ => st,
    }
}

/// The state after the hwmon entries.
pub open spec fn hwmon_fold(es: Seq<HwmonReadings>) -> TelemetryState {
    es.fold_left(initial_state(), |st: TelemetryState, e: HwmonReadings| hwmon_step(st, e))
}

/// The state after the power supplies, starting from `st`.
pub open spec fn supply_fold(st: TelemetryState, ps: Seq<PowerSupplyReadings>) -> TelemetryState {
    ps.fold_left(st, |st: TelemetryState, p: PowerSupplyReadings| supply_step(st, p))
}

/// The collected state of a whole snapshot.
pub open spec fn telemetry_state(hwmon: Seq<HwmonReadings>, supplies: Seq<PowerSupplyReadings>) -> TelemetryState {
    supply_fold(hwmon_fold(hwmon), supplies)
}

/// Record a gap for `field` unless one is already recorded.
pub fn record_gap(
    gaps: &mut Vec<(TelemetryField, TelemetryFieldGap)>,
    field: TelemetryField,
    gap: TelemetryFieldGap,
)
    ensures
        final(gaps)@ == add_gap(old(gaps)@, field, gap),
{
    let mut i: usize = 0;
    while i < gaps.len()
        invariant
            0 <= i <= gaps@.len(),
            gaps@ == old(gaps)@,
            forall|k: int| 0 <= k < i ==> (#[trigger] gaps@[k]).0 != field,
        decreases gaps@.len() - i,
    {
        if gaps[i].0 == field {
            return;
        }
        i = i + 1;
    }
    gaps.push((field, gap));
}

struct Collected {
    cpu_temp: Option<TemperatureC>,
    gpu_temp: Option<TemperatureC>,
    gpu_power: Option<MilliWatt>,
    fans: Vec<FanTelemetry>,
    ac_online: Option<bool>,
    battery: Option<BatteryTelemetry>,
    gaps: Vec<(TelemetryField, TelemetryFieldGap)>,
}

spec fn collected_state(c: Collected) -> TelemetryState {
    TelemetryState {
        cpu_temp: opt_int(c.cpu_temp),
        gpu_temp: opt_int(c.gpu_temp),
        gpu_power: opt_int(c.gpu_power),
        fans: fan_views(c.fans@),
        ac_online: c.ac_online,
        battery: opt_battery(c.battery),
        gaps: c.gaps@,
    }
}

fn apply_hwmon(c: &mut Collected, e: &HwmonReadings)
    ensures
        collected_state(*final(c)) == hwmon_step(collected_state(*old(c)), *e),
{
    let name = match read_text(&e.name) {
        Ok(Some(n)) => n,
        _ => {
            return;
        },
    };
    if str_eq(name.as_str(), "k10temp") {
        match temp_at(&e.temp_inputs, 0) {
            Ok(v) => {
                c.cpu_temp = v;
            },
            Err(g) => {
                record_gap(&mut c.gaps, TelemetryField::CpuTemp, g);
            },
        }
    } else if str_eq(name.as_str(), "amdgpu") {
        match read_edge_temp(e) {
            Ok(v) => {
                c.gpu_temp = v;
            },
            Err(g) => {
                record_gap(&mut c.gaps, TelemetryField::GpuTemp, g);
            },
        }
        match read_milliwatt(&e.power1_input) {
            Ok(v) => {
                c.gpu_power = v;
            },
            Err(g) => {
                record_gap(&mut c.gaps, TelemetryField::GpuPower, g);
            },
        }
    } else if str_eq(name.as_str(), "asus") {
        let (fans, first) = read_asus_fans(e);
        let empty = fans.len() == 0;
        c.fans = fans;
        if empty {
            if let Some(g) = first {
                record_gap(&mut c.gaps, TelemetryField::Fans, g);
            }
        }
    }
}

fn apply_supply(c: &mut Collected, p: &PowerSupplyReadings)
    ensures
        collected_state(*final(c)) == supply_step(collected_state(*old(c)), *p),
{
    let supply_type = match read_text(&p.supply_type) {
        Ok(Some(t)) => t,
        _ => {
            return;
        },
    };
    if str_eq(supply_type.as_str(), "Battery") {
        if c.battery.is_none() {
            match read_battery(p) {
                Ok(b) => {
                    c.battery = b;
                },
                Err(g) => {
                    record_gap(&mut c.gaps, TelemetryField::Battery, g);
                },
            }
        }
    } else if c.ac_online.is_none() && p.online_exists {
        match read_online(&p.online) {
            Ok(v) => {
                c.ac_online = v;
            },
            Err(g) => {
                record_gap(&mut c.gaps, TelemetryField::AcOnline, g);
            },
        }
    }
}

/// The telemetry sample of one snapshot, from the readings of every
/// discovered hwmon entry and power supply, in discovery order.
pub fn telemetry_from_readings(
    hwmon: &Vec<HwmonReadings>,
    supplies: &Vec<PowerSupplyReadings>,
) -> (t: Telemetry)
    ensures
        opt_int(t.cpu_temp) == telemetry_state(hwmon@, supplies@).cpu_temp,
        opt_int(t.gpu_temp) == telemetry_state(hwmon@, supplies@).gpu_temp,
        opt_int(t.power.gpu) == telemetry_state(hwmon@, supplies@).gpu_power,
        t.power.ac is None && t.power.battery is None && t.power.total is None,
        fan_views(t.fans@) == telemetry_state(hwmon@, supplies@).fans,
        t.ac_online == telemetry_state(hwmon@, supplies@).ac_online,
        opt_battery(t.battery) == telemetry_state(hwmon@, supplies@).battery,
        t.gpu_power_state == GpuPowerState::Unknown,
        t.field_gaps@ == telemetry_state(hwmon@, supplies@).gaps,
        t.gpus@.len() == 0,
{
    let mut c = Collected {
        cpu_temp: None,
        gpu_temp: None,
        gpu_power: None,
        fans: Vec::new(),
        ac_online: None,
        battery: None,
        gaps: Vec::new(),
    };
    assert(collected_state(c) =~= initial_state()) by {
        assert(fan_views(c.fans@) =~= Seq::<FanView>::empty());
        assert(c.gaps@ =~= Seq::<(TelemetryField, TelemetryFieldGap)>::empty());
    }
    let mut i: usize = 0;
    while i < hwmon.len()
        invariant
            0 <= i <= hwmon@.len(),
            collected_state(c) == hwmon_fold(hwmon@.take(i as int)),
        decreases hwmon@.len() - i,
    {
        apply_hwmon(&mut c, &hwmon[i]);
        assert(hwmon@.take(i + 1).drop_last() =~= hwmon@.take(i as int));
        i = i + 1;
    }
    assert(hwmon@.take(hwmon@.len() as int) =~= hwmon@);
    let ghost after_hwmon = collected_state(c);
    let mut j: usize = 0;
    while j < supplies.len()
        invariant
            0 <= j <= supplies@.len(),
            collected_state(c) == supply_fold(after_hwmon, supplies@.take(j as int)),
        decreases supplies@.len() - j,
    {
        apply_supply(&mut c, &supplies[j]);
        assert(supplies@.take(j + 1).drop_last() =~= supplies@.take(j as int));
        j = j + 1;
    }
    assert(supplies@.take(supplies@.len() as int) =~= supplies@);
    Telemetry {
        cpu_temp: c.cpu_temp,
        gpu_temp: c.gpu_temp,
        fans: c.fans,
        power: PowerTelemetry { ac: None, battery: None, total: None, gpu: c.gpu_power },
        ac_online: c.ac_online,
        battery: c.battery,
        gpu_power_state: GpuPowerState::Unknown,
        field_gaps: c.gaps,
        gpus: Vec::new(),
        ts: now(),
    }
}

// ---------------------------------------------------------------------------
// Laws
// ---------------------------------------------------------------------------

/// No two gap records name the same group.
pub open spec fn gaps_distinct(gaps: Seq<(TelemetryField, TelemetryFieldGap)>) -> bool {
    forall|i: int, j: int| 0 <= i < j < gaps.len() ==> (#[trigger] gaps[i]).0 != (#[trigger] gaps[j]).0
}

/// Every fan reading is a complete ASUS hwmon reading without a duty cycle.
pub open spec fn fans_unscaled(fans: Seq<FanView>) -> bool {
    forall|i: int|
        0 <= i < fans.len() ==> (#[trigger] fans[i]).percent is None && fans[i].source
            == "asus-hwmon"@ && fans[i].quality == FanTelemetryQuality::Complete
}

proof fn lemma_add_gap_distinct(
    gaps: Seq<(TelemetryField, TelemetryFieldGap)>,
    field: TelemetryField,
    gap: TelemetryFieldGap,
)
    requires
        gaps_distinct(gaps),
    ensures
        gaps_distinct(add_gap(gaps, field, gap)),
{
    let r = add_gap(gaps, field, gap);
    if !(exists|i: int| 0 <= i < gaps.len() && (#[trigger] gaps[i]).0 == field) {
        assert forall|i: int, j: int| 0 <= i < j < r.len() implies (#[trigger] r[i]).0 != (
        #[trigger] r[j]).0 by {
            if j == gaps.len() {
                assert(r[i] == gaps[i]);
            } else {
                assert(r[i] == gaps[i] && r[j] == gaps[j]);
            }
        }
    }
}

proof fn lemma_fans_upto_unscaled(
    labels: Seq<Result<String, IoFailure>>,
    inputs: Seq<Result<String, IoFailure>>,
    k: int,
)
    ensures
        fans_unscaled(fans_upto(labels, inputs, k).0),
    decreases k,
{
    if k > 0 {
        lemma_fans_upto_unscaled(labels, inputs, k - 1);
        let prev = fans_upto(labels, inputs, k - 1).0;
        let cur = fans_upto(labels, inputs, k).0;
        assert forall|i: int| 0 <= i < cur.len() implies (#[trigger] cur[i]).percent is None
            && cur[i].source == "asus-hwmon"@ && cur[i].quality
            == FanTelemetryQuality::Complete by {
            if i < prev.len() {
                assert(cur[i] == prev[i]);
            }
        }
    }
}

proof fn lemma_hwmon_step_preserves(st: TelemetryState, e: HwmonReadings)
    requires
        gaps_distinct(st.gaps),
        fans_unscaled(st.fans),
    ensures
        gaps_distinct(hwmon_step(st, e).gaps),
        fans_unscaled(hwmon_step(st, e).fans),
{
    lemma_fans_upto_unscaled(e.fan_labels@, e.fan_inputs@, 4);
    assert forall|f: TelemetryField, g: TelemetryFieldGap| gaps_distinct(add_gap(st.gaps, f, g)) by {
        lemma_add_gap_distinct(st.gaps, f, g);
    }
    let st1 = match edge_temp_from(e.temp_labels@, e.temp_inputs@, 0) {
        Ok(v) => TelemetryState { gpu_temp: v, ..st },
        Err(g) => TelemetryState { gaps: add_gap(st.gaps, TelemetryField::GpuTemp, g), ..st },
    };
    assert forall|f: TelemetryField, g: TelemetryFieldGap| gaps_distinct(add_gap(st1.gaps, f, g)) by {
        lemma_add_gap_distinct(st1.gaps, f, g);
    }
}

proof fn lemma_supply_step_preserves(st: TelemetryState, p: PowerSupplyReadings)
    requires
        gaps_distinct(st.gaps),
        fans_unscaled(st.fans),
    ensures
        gaps_distinct(supply_step(st, p).gaps),
        fans_unscaled(supply_step(st, p).fans),
{
    assert forall|f: TelemetryField, g: TelemetryFieldGap| gaps_distinct(add_gap(st.gaps, f, g)) by {
        lemma_add_gap_distinct(st.gaps, f, g);
    }
}

proof fn lemma_hwmon_fold_evidence(hwmon: Seq<HwmonReadings>)
    ensures
        gaps_distinct(hwmon_fold(hwmon).gaps),
        fans_unscaled(hwmon_fold(hwmon).fans),
    decreases hwmon.len(),
{
    if hwmon.len() > 0 {
        lemma_hwmon_fold_evidence(hwmon.drop_last());
        lemma_hwmon_step_preserves(hwmon_fold(hwmon.drop_last()), hwmon.last());
    }
}

proof fn lemma_supply_fold_evidence(st: TelemetryState, supplies: Seq<PowerSupplyReadings>)
    requires
        gaps_distinct(st.gaps),
        fans_unscaled(st.fans),
    ensures
        gaps_distinct(supply_fold(st, supplies).gaps),
        fans_unscaled(supply_fold(st, supplies).fans),
    decreases supplies.len(),
{
    if supplies.len() > 0 {
        lemma_supply_fold_evidence(st, supplies.drop_last());
        lemma_supply_step_preserves(supply_fold(st, supplies.drop_last()), supplies.last());
    }
}

/// Each telemetry group carries at most one gap record, and every fan
/// reading is a complete ASUS hwmon reading whose duty cycle is not derived.
pub proof fn lemma_snapshot_evidence(hwmon: Seq<HwmonReadings>, supplies: Seq<PowerSupplyReadings>)
    ensures
        gaps_distinct(telemetry_state(hwmon, supplies).gaps),
        fans_unscaled(telemetry_state(hwmon, supplies).fans),
{
    lemma_hwmon_fold_evidence(hwmon);
    lemma_supply_fold_evidence(hwmon_fold(hwmon), supplies);
}

/// Each ASUS hwmon fan label names exactly one fan: `cpu_fan` the CPU fan,
/// `gpu_fan` the GPU fan, `mid_fan` the middle fan and `system_fan` the
/// system fan; no other label names any of them, and every other label is
/// kept as it is.
pub proof fn lemma_fan_labels(label: Seq<char>)
    ensures
        (fan_id_of(label) == FanIdView::Cpu) <==> label == "cpu_fan"@,
        (fan_id_of(label) == FanIdView::Gpu) <==> label == "gpu_fan"@,
        (fan_id_of(label) == FanIdView::Mid) <==> label == "mid_fan"@,
        (fan_id_of(label) == FanIdView::System) <==> label == "system_fan"@,
        label != "cpu_fan"@ && label != "gpu_fan"@ && label != "mid_fan"@ && label != "system_fan"@
            ==> fan_id_of(label) == FanIdView::Other(label),
{
    reveal_strlit("cpu_fan");
    reveal_strlit("gpu_fan");
    reveal_strlit("mid_fan");
    reveal_strlit("system_fan");
    assert("cpu_fan"@ != "gpu_fan"@ && "cpu_fan"@ != "mid_fan"@ && "gpu_fan"@ != "mid_fan"@) by {
        assert("cpu_fan"@[0] != "gpu_fan"@[0]);
        assert("cpu_fan"@[0] != "mid_fan"@[0]);
        assert("gpu_fan"@[0] != "mid_fan"@[0]);
    }
    assert("system_fan"@.len() != "cpu_fan"@.len());
}

} // verus!
