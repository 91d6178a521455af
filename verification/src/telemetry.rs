//! Telemetry domain values: validated units and the telemetry sample.
//!
//! Units are newtypes whose constructors reject values outside the domain
//! range; a sample keeps per-group gap evidence so that a source that was
//! found but failed is distinguishable from a source that does not exist.
use vstd::prelude::*;

use crate::gpu::GpuPowerState;
use crate::text::{ascii_lower, str_eq, to_ascii_lowercase};

verus! {

/// Lowest temperature, in °C, that a temperature reading may hold.
pub const TEMPERATURE_C_MIN: i16 = -273;

/// Highest temperature, in °C, that a temperature reading may hold.
pub const TEMPERATURE_C_MAX: i16 = 200;

/// A value handed to a unit constructor lies outside the unit's range.
#[derive(Debug, Clone, Copy, PartialEq, Eq, Structural)]
pub struct OutOfRange;

/// Temperature in whole degrees Celsius.
#[derive(Debug, Clone, Copy, PartialEq, Eq, Structural)]
pub struct TemperatureC(i16);

impl View for TemperatureC {
    type V = int;

    closed spec fn view(&self) -> int {
        self.0 as int
    }
}

impl TemperatureC {
    /// A temperature, if it lies in `TEMPERATURE_C_MIN..=TEMPERATURE_C_MAX`.
    pub fn new(celsius: i16) -> (r: Result<Self, OutOfRange>)
        ensures
            r is Ok <==> TEMPERATURE_C_MIN <= celsius <= TEMPERATURE_C_MAX,
            r matches Ok(t) ==> t@ == celsius,
    {
        if TEMPERATURE_C_MIN <= celsius && celsius <= TEMPERATURE_C_MAX {
            Ok(TemperatureC(celsius))
        } else {
            Err(OutOfRange)
        }
    }

    /// The temperature in °C.
    pub fn get(&self) -> (v: i16)
        ensures
            v == self@,
    {
        self.0
    }
}

/// Fan speed in revolutions per minute; every `u16` is a valid speed.
#[derive(Debug, Clone, Copy, PartialEq, Eq, Structural)]
pub struct Rpm(u16);

impl View for Rpm {
    type V = int;

    closed spec fn view(&self) -> int {
        self.0 as int
    }
}

impl Rpm {
    /// A fan speed.
    pub fn new(rpm: u16) -> (r: Result<Self, OutOfRange>)
        ensures
            r matches Ok(v) && v@ == rpm,
    {
        Ok(Rpm(rpm))
    }

    /// The speed.
    pub fn get(&self) -> (v: u16)
        ensures
            v == self@,
    {
        self.0
    }
}

/// Power in milliwatts; every `u32` is a valid power.
#[derive(Debug, Clone, Copy, PartialEq, Eq, Structural)]
pub struct MilliWatt(u32);

impl View for MilliWatt {
    type V = int;

    closed spec fn view(&self) -> int {
        self.0 as int
    }
}

impl MilliWatt {
    /// A power value.
    pub fn new(mw: u32) -> (r: Result<Self, OutOfRange>)
        ensures
            r matches Ok(v) && v@ == mw,
    {
        Ok(MilliWatt(mw))
    }

    /// The power in mW.
    pub fn get(&self) -> (v: u32)
        ensures
            v == self@,
    {
        self.0
    }
}

/// A percentage, `0..=100`.
#[derive(Debug, Clone, Copy, PartialEq, Eq, Structural)]
pub struct Percent(u8);

impl View for Percent {
    type V = int;

    closed spec fn view(&self) -> int {
        self.0 as int
    }
}

impl Percent {
    /// A percentage, if it is at most 100.
    pub fn new(p: u8) -> (r: Result<Self, OutOfRange>)
        ensures
            r is Ok <==> p <= 100,
            r matches Ok(v) ==> v@ == p,
    {
        if p <= 100 {
            Ok(Percent(p))
        } else {
            Err(OutOfRange)
        }
    }

    /// The percentage.
    pub fn get(&self) -> (v: u8)
        ensures
            v == self@,
    {
        self.0
    }
}

/// Energy in milliwatt-hours; every `u32` is a valid energy.
#[derive(Debug, Clone, Copy, PartialEq, Eq, Structural)]
pub struct EnergyMWh(u32);

impl View for EnergyMWh {
    type V = int;

    closed spec fn view(&self) -> int {
        self.0 as int
    }
}

impl EnergyMWh {
    /// An energy value.
    pub fn new(mwh: u32) -> (r: Result<Self, OutOfRange>)
        ensures
            r matches Ok(v) && v@ == mwh,
    {
        Ok(EnergyMWh(mwh))
    }
}

/// Which fan a reading belongs to.
#[derive(Debug, Clone, PartialEq, Eq, Hash, PartialOrd, Ord)]
pub enum FanId {
    /// CPU fan.
    Cpu,
    /// GPU fan.
    Gpu,
    /// Middle fan.
    Mid,
    /// System fan.
    System,
    /// Any other labelled fan.
    Other(String),
}

/// How complete a fan reading is.
#[derive(Debug, Clone, Copy, PartialEq, Eq, Structural)]
pub enum FanTelemetryQuality {
    /// Speed and identity are both known.
    Complete,
    /// Only part of the fan's data is known.
    Partial,
}

/// One fan reading.
#[derive(Debug, Clone, PartialEq, Eq)]
pub struct FanTelemetry {
    /// Where the reading came from.
    pub source: String,
    /// Which fan.
    pub fan: FanId,
    /// The kernel or backend label.
    pub label: String,
    /// Current speed.
    pub rpm: Rpm,
    /// Duty cycle, when proven.
    pub percent: Option<Percent>,
    /// Reading quality.
    pub quality: FanTelemetryQuality,
}

/// Power readings.
#[derive(Debug, Clone, Copy, PartialEq, Eq, Structural)]
pub struct PowerTelemetry {
    /// AC input power.
    pub ac: Option<MilliWatt>,
    /// Battery power.
    pub battery: Option<MilliWatt>,
    /// Total system power.
    pub total: Option<MilliWatt>,
    /// GPU power.
    pub gpu: Option<MilliWatt>,
}

impl PowerTelemetry {
    /// No power reading.
    pub fn none() -> (p: Self)
        ensures
            p.ac is None && p.battery is None && p.total is None && p.gpu is None,
    {
        PowerTelemetry { ac: None, battery: None, total: None, gpu: None }
    }
}

/// Battery readings.
#[derive(Debug, Clone, PartialEq, Eq)]
pub struct BatteryTelemetry {
    /// State of charge.
    pub percent: Percent,
    /// Health: full charge relative to the design capacity.
    pub capacity: Option<Percent>,
    /// Remaining energy.
    pub energy_now: Option<EnergyMWh>,
    /// Energy when full.
    pub energy_full: Option<EnergyMWh>,
    /// Charge cycles.
    pub charge_cycles: Option<u32>,
    /// Kernel status text (`Charging`, `Full`, ...).
    pub state: String,
}

/// A telemetry group that can carry gap evidence.
#[derive(Debug, Clone, Copy, PartialEq, Eq, Structural)]
pub enum TelemetryField {
    /// CPU temperature.
    CpuTemp,
    /// GPU temperature.
    GpuTemp,
    /// GPU power.
    GpuPower,
    /// Fan readings.
    Fans,
    /// AC adapter state.
    AcOnline,
    /// Battery readings.
    Battery,
}

/// Why a discovered source produced no value.
#[derive(Debug, Clone, Copy, PartialEq, Eq, Structural)]
pub enum TelemetryFieldGap {
    /// Reading was refused by permissions.
    Denied,
    /// Reading failed for another I/O reason.
    Unavailable,
    /// The value was empty, unparsable or out of range.
    Malformed,
}

/// GPU role.
#[derive(Debug, Clone, Copy, PartialEq, Eq, Structural)]
pub enum GpuRole {
    /// Integrated GPU.
    Integrated,
    /// Discrete GPU.
    Discrete,
    /// Role not proven.
    Unknown,
}

/// Physical GPU identity.
#[derive(Debug, Clone, PartialEq, Eq)]
pub struct GpuIdentity {
    /// PCI vendor id text as the source reported it.
    pub vendor: Option<String>,
    /// PCI slot address (`domain:bus:dev.fn`).
    pub pci_id: Option<String>,
}

/// Per-GPU telemetry.
#[derive(Debug, Clone, PartialEq, Eq)]
pub struct GpuTelemetry {
    /// Identity, when proven.
    pub identity: Option<GpuIdentity>,
    /// Role.
    pub role: GpuRole,
    /// Where the reading came from.
    pub source: String,
    /// Temperature.
    pub temperature: Option<TemperatureC>,
    /// Power.
    pub power: Option<MilliWatt>,
    /// Fan.
    pub fan: Option<FanTelemetry>,
}

#[verifier::external_type_specification]
#[verifier::external_body]
pub struct ExSystemTime(std::time::SystemTime);

/// `SystemTime::clone`: `SystemTime` is `Copy`, so a clone is the same time.
pub assume_specification[ <std::time::SystemTime as Clone>::clone ](t: &std::time::SystemTime) -> (r:
    std::time::SystemTime)
    ensures
        r == *t,
;

/// One telemetry sample.
#[derive(Debug, Clone, PartialEq, Eq)]
pub struct Telemetry {
    /// CPU temperature.
    pub cpu_temp: Option<TemperatureC>,
    /// GPU temperature.
    pub gpu_temp: Option<TemperatureC>,
    /// Fan readings.
    pub fans: Vec<FanTelemetry>,
    /// Power readings.
    pub power: PowerTelemetry,
    /// AC adapter online.
    pub ac_online: Option<bool>,
    /// Battery readings.
    pub battery: Option<BatteryTelemetry>,
    /// dGPU power state; telemetry never claims one.
    pub gpu_power_state: GpuPowerState,
    /// Gap evidence per group, at most one per group.
    pub field_gaps: Vec<(TelemetryField, TelemetryFieldGap)>,
    /// Per-GPU readings.
    pub gpus: Vec<GpuTelemetry>,
    /// When the sample was taken.
    pub ts: std::time::SystemTime,
}

/// `SystemTime::now()`: the current wall-clock time. Nothing is claimed of
/// the value, which depends on the clock.
#[verifier::external_body]
pub(crate) fn now() -> std::time::SystemTime {
    std::time::SystemTime::now()
}

/// `std::time::UNIX_EPOCH`. Nothing is claimed of the opaque value.
#[verifier::external_body]
pub(crate) fn unix_epoch() -> std::time::SystemTime {
    std::time::UNIX_EPOCH
}

/// `SystemTime::duration_since`: how long `earlier` precedes `later`, or
/// `None` when it does not. Both times are opaque here, so nothing is
/// claimed of the result.
#[verifier::external_body]
pub(crate) fn duration_since(later: std::time::SystemTime, earlier: std::time::SystemTime) -> Option<std::time::Duration> {
    later.duration_since(earlier).ok()
}

/// `Duration::as_nanos`. The duration is opaque here, so nothing is claimed
/// of the value.
#[verifier::external_body]
pub(crate) fn duration_nanos(d: std::time::Duration) -> u128 {
    d.as_nanos()
}

/// The gap recorded for `field`, if any.
pub open spec fn gap_of(gaps: Seq<(TelemetryField, TelemetryFieldGap)>, field: TelemetryField) -> Option<
    TelemetryFieldGap,
>
    decreases gaps.len(),
{
    if gaps.len() == 0 {
        None
    } else if gaps[0].0 == field {
        Some(gaps[0].1)
    } else {
        gap_of(gaps.drop_first(), field)
    }
}

impl Telemetry {
    /// A sample with no readings, taken now.
    pub fn empty() -> (t: Self)
        ensures
            t.cpu_temp is None,
            t.gpu_temp is None,
            t.fans@.len() == 0,
            t.power == PowerTelemetry::none_spec(),
            t.ac_online is None,
            t.battery is None,
            t.gpu_power_state == GpuPowerState::Unknown,
            t.field_gaps@.len() == 0,
            t.gpus@.len() == 0,
    {
        Telemetry {
            cpu_temp: None,
            gpu_temp: None,
            fans: Vec::new(),
            power: PowerTelemetry::none(),
            ac_online: None,
            battery: None,
            gpu_power_state: GpuPowerState::Unknown,
            field_gaps: Vec::new(),
            gpus: Vec::new(),
            ts: now(),
        }
    }

    /// The gap evidence recorded for `field`, if any.
    pub fn gap(&self, field: TelemetryField) -> (g: Option<TelemetryFieldGap>)
        ensures
            g == gap_of(self.field_gaps@, field),
    {
        let mut i: usize = 0;
        assert(self.field_gaps@.skip(0) =~= self.field_gaps@);
        while i < self.field_gaps.len()
            invariant
                0 <= i <= self.field_gaps@.len(),
                gap_of(self.field_gaps@, field) == gap_of(self.field_gaps@.skip(i as int), field),
            decreases self.field_gaps@.len() - i,
        {
            assert(self.field_gaps@.skip(i as int).drop_first() =~= self.field_gaps@.skip(i + 1));
            let (f, g) = self.field_gaps[i];
            if f == field {
                return Some(g);
            }
            i = i + 1;
        }
        None
    }
}

impl PowerTelemetry {
    /// No power reading.
    pub open spec fn none_spec() -> Self {
        PowerTelemetry { ac: None, battery: None, total: None, gpu: None }
    }
}

/// `Option` of a unit, viewed as an optional integer.
pub open spec fn opt_int<T: View<V = int>>(o: Option<T>) -> Option<int> {
    match o {
        Some(t) => Some(t@),
        None => None,
    }
}

/// Spec view of a fan identity.
pub enum FanIdView {
    /// See [`FanId::Cpu`].
    Cpu,
    /// See [`FanId::Gpu`].
    Gpu,
    /// See [`FanId::Mid`].
    Mid,
    /// See [`FanId::System`].
    System,
    /// See [`FanId::Other`].
    Other(Seq<char>),
}

impl View for FanId {
    type V = FanIdView;

    open spec fn view(&self) -> FanIdView {
        match self {
            FanId::Cpu => FanIdView::Cpu,
            FanId::Gpu => FanIdView::Gpu,
            FanId::Mid => FanIdView::Mid,
            FanId::System => FanIdView::System,
            FanId::Other(s) => FanIdView::Other(s@),
        }
    }
}

/// Spec view of a fan reading.
pub struct FanView {
    /// Source.
    pub source: Seq<char>,
    /// Fan identity.
    pub fan: FanIdView,
    /// Label.
    pub label: Seq<char>,
    /// Speed.
    pub rpm: int,
    /// Duty cycle.
    pub percent: Option<int>,
    /// Quality.
    pub quality: FanTelemetryQuality,
}

impl View for FanTelemetry {
    type V = FanView;

    open spec fn view(&self) -> FanView {
        FanView {
            source: self.source@,
            fan: self.fan@,
            label: self.label@,
            rpm: self.rpm@,
            percent: opt_int(self.percent),
            quality: self.quality,
        }
    }
}

/// The views of a list of fan readings.
pub open spec fn fan_views(v: Seq<FanTelemetry>) -> Seq<FanView> {
    v.map_values(|f: FanTelemetry| f@)
}

/// Spec view of battery readings.
pub struct BatteryView {
    /// State of charge.
    pub percent: int,
    /// Health.
    pub capacity: Option<int>,
    /// Remaining energy.
    pub energy_now: Option<int>,
    /// Energy when full.
    pub energy_full: Option<int>,
    /// Charge cycles.
    pub charge_cycles: Option<u32>,
    /// Status text.
    pub state: Seq<char>,
}

impl View for BatteryTelemetry {
    type V = BatteryView;

    open spec fn view(&self) -> BatteryView {
        BatteryView {
            percent: self.percent@,
            capacity: opt_int(self.capacity),
            energy_now: opt_int(self.energy_now),
            energy_full: opt_int(self.energy_full),
            charge_cycles: self.charge_cycles,
            state: self.state@,
        }
    }
}

/// An optional battery reading, viewed.
pub open spec fn opt_battery(o: Option<BatteryTelemetry>) -> Option<BatteryView> {
    match o {
        Some(b) => Some(b@),
        None => None,
    }
}

/// Spec view of a GPU identity.
pub struct GpuIdentityView {
    /// Vendor text.
    pub vendor: Option<Seq<char>>,
    /// PCI slot address.
    pub pci_id: Option<Seq<char>>,
}

/// An optional string, viewed.
pub open spec fn opt_str(o: Option<String>) -> Option<Seq<char>> {
    match o {
        Some(s) => Some(s@),
        None => None,
    }
}

impl View for GpuIdentity {
    type V = GpuIdentityView;

    open spec fn view(&self) -> GpuIdentityView {
        GpuIdentityView { vendor: opt_str(self.vendor), pci_id: opt_str(self.pci_id) }
    }
}

/// Two identities name the same physical GPU when both carry a PCI slot
/// address and the addresses agree up to ASCII case. Vendor text is not
/// compared: sources spell it differently (`0x10de`, `10DE`).
pub open spec fn identities_match(a: GpuIdentityView, b: GpuIdentityView) -> bool {
    a.pci_id is Some && b.pci_id is Some && ascii_lower(a.pci_id.unwrap()) == ascii_lower(
        b.pci_id.unwrap(),
    )
}

impl GpuIdentity {
    /// Whether both identities name the same physical GPU.
    pub fn matches(&self, other: &GpuIdentity) -> (b: bool)
        ensures
            b == identities_match(self@, other@),
    {
        match (&self.pci_id, &other.pci_id) {
            (Some(a), Some(b)) => {
                let la = to_ascii_lowercase(a.as_str());
                let lb = to_ascii_lowercase(b.as_str());
                str_eq(la.as_str(), lb.as_str())
            },
            _ => false,
        }
    }
}

/// Spec view of per-GPU telemetry.
pub struct GpuView {
    /// Identity.
    pub identity: Option<GpuIdentityView>,
    /// Role.
    pub role: GpuRole,
    /// Source.
    pub source: Seq<char>,
    /// Temperature (°C).
    pub temperature: Option<int>,
    /// Power (mW).
    pub power: Option<int>,
    /// Fan.
    pub fan: Option<FanView>,
}

impl View for GpuTelemetry {
    type V = GpuView;

    open spec fn view(&self) -> GpuView {
        GpuView {
            identity: match self.identity {
                Some(i) => Some(i@),
                None => None,
            },
            role: self.role,
            source: self.source@,
            temperature: opt_int(self.temperature),
            power: opt_int(self.power),
            fan: match self.fan {
                Some(f) => Some(f@),
                None => None,
            },
        }
    }
}

/// The views of a list of per-GPU readings.
pub open spec fn gpu_views(v: Seq<GpuTelemetry>) -> Seq<GpuView> {
    v.map_values(|g: GpuTelemetry| g@)
}

/// A copy of a fan identity.
pub fn clone_fan_id(f: &FanId) -> (c: FanId)
    ensures
        c@ == f@,
{
    match f {
        FanId::Cpu => FanId::Cpu,
        FanId::Gpu => FanId::Gpu,
        FanId::Mid => FanId::Mid,
        FanId::System => FanId::System,
        FanId::Other(s) => FanId::Other(s.clone()),
    }
}

/// A copy of a fan reading.
pub fn clone_fan(f: &FanTelemetry) -> (c: FanTelemetry)
    ensures
        c@ == f@,
{
    FanTelemetry {
        source: f.source.clone(),
        fan: clone_fan_id(&f.fan),
        label: f.label.clone(),
        rpm: f.rpm,
        percent: f.percent,
        quality: f.quality,
    }
}

/// A copy of an optional string.
pub fn clone_opt_string(o: &Option<String>) -> (c: Option<String>)
    ensures
        opt_str(c) == opt_str(*o),
{
    match o {
        Some(s) => Some(s.clone()),
        None => None,
    }
}

/// A copy of an optional fan reading.
pub fn clone_opt_fan(o: &Option<FanTelemetry>) -> (c: Option<FanTelemetry>)
    ensures
        match *o {
            Some(f) => c matches Some(g) && g@ == f@,
            None => c is None,
        },
{
    match o {
        Some(f) => Some(clone_fan(f)),
        None => None,
    }
}

/// A copy of a GPU identity.
pub fn clone_identity(g: &GpuIdentity) -> (c: GpuIdentity)
    ensures
        c@ == g@,
{
    GpuIdentity { vendor: clone_opt_string(&g.vendor), pci_id: clone_opt_string(&g.pci_id) }
}

/// A copy of per-GPU telemetry.
pub fn clone_gpu(g: &GpuTelemetry) -> (c: GpuTelemetry)
    ensures
        c@ == g@,
{
    GpuTelemetry {
        identity: match &g.identity {
            Some(i) => Some(clone_identity(i)),
            None => None,
        },
        role: g.role,
        source: g.source.clone(),
        temperature: g.temperature,
        power: g.power,
        fan: clone_opt_fan(&g.fan),
    }
}


/// Spec view of a telemetry sample.
pub struct TelemetryView {
    /// CPU temperature.
    pub cpu_temp: Option<TemperatureC>,
    /// GPU temperature.
    pub gpu_temp: Option<TemperatureC>,
    /// Fans.
    pub fans: Seq<FanView>,
    /// Power.
    pub power: PowerTelemetry,
    /// AC online.
    pub ac_online: Option<bool>,
    /// Battery.
    pub battery: Option<BatteryView>,
    /// dGPU power state.
    pub gpu_power_state: GpuPowerState,
    /// Gap evidence.
    pub field_gaps: Seq<(TelemetryField, TelemetryFieldGap)>,
    /// GPUs.
    pub gpus: Seq<GpuView>,
    /// Sample time.
    pub ts: std::time::SystemTime,
}

impl View for Telemetry {
    type V = TelemetryView;

    open spec fn view(&self) -> TelemetryView {
        TelemetryView {
            cpu_temp: self.cpu_temp,
            gpu_temp: self.gpu_temp,
            fans: fan_views(self.fans@),
            power: self.power,
            ac_online: self.ac_online,
            battery: opt_battery(self.battery),
            gpu_power_state: self.gpu_power_state,
            field_gaps: self.field_gaps@,
            gpus: gpu_views(self.gpus@),
            ts: self.ts,
        }
    }
}

/// A copy of battery readings.
pub fn clone_battery(b: &BatteryTelemetry) -> (c: BatteryTelemetry)
    ensures
        c@ == b@,
{
    BatteryTelemetry {
        percent: b.percent,
        capacity: b.capacity,
        energy_now: b.energy_now,
        energy_full: b.energy_full,
        charge_cycles: b.charge_cycles,
        state: b.state.clone(),
    }
}

/// A copy of a telemetry sample.
pub fn clone_telemetry(t: &Telemetry) -> (c: Telemetry)
    ensures
        c@ == t@,
{
    let mut fans: Vec<FanTelemetry> = Vec::new();
    let mut i: usize = 0;
    while i < t.fans.len()
        invariant
            0 <= i <= t.fans@.len(),
            fan_views(fans@) == fan_views(t.fans@.take(i as int)),
        decreases t.fans@.len() - i,
    {
        let f = clone_fan(&t.fans[i]);
        let ghost before = fans@;
        fans.push(f);
        assert(fan_views(fans@) =~= fan_views(before).push(f@));
        assert(fan_views(t.fans@.take(i + 1)) =~= fan_views(t.fans@.take(i as int)).push(t.fans@[i as int]@));
        i = i + 1;
    }
    assert(t.fans@.take(t.fans@.len() as int) =~= t.fans@);
    let mut gaps: Vec<(TelemetryField, TelemetryFieldGap)> = Vec::new();
    let mut j: usize = 0;
    while j < t.field_gaps.len()
        invariant
            0 <= j <= t.field_gaps@.len(),
            gaps@ == t.field_gaps@.take(j as int),
        decreases t.field_gaps@.len() - j,
    {
        gaps.push(t.field_gaps[j]);
        assert(t.field_gaps@.take(j + 1) =~= t.field_gaps@.take(j as int).push(t.field_gaps@[j as int]));
        j = j + 1;
    }
    assert(t.field_gaps@.take(t.field_gaps@.len() as int) =~= t.field_gaps@);
    let mut gpus: Vec<GpuTelemetry> = Vec::new();
    let mut k: usize = 0;
    while k < t.gpus.len()
        invariant
            0 <= k <= t.gpus@.len(),
            gpu_views(gpus@) == gpu_views(t.gpus@.take(k as int)),
        decreases t.gpus@.len() - k,
    {
        let g = clone_gpu(&t.gpus[k]);
        let ghost before = gpus@;
        gpus.push(g);
        assert(gpu_views(gpus@) =~= gpu_views(before).push(g@));
        assert(gpu_views(t.gpus@.take(k + 1)) =~= gpu_views(t.gpus@.take(k as int)).push(t.gpus@[k as int]@));
        k = k + 1;
    }
    assert(t.gpus@.take(t.gpus@.len() as int) =~= t.gpus@);
    Telemetry {
        cpu_temp: t.cpu_temp,
        gpu_temp: t.gpu_temp,
        fans,
        power: t.power,
        ac_online: t.ac_online,
        battery: match &t.battery {
            Some(b) => Some(clone_battery(b)),
            None => None,
        },
        gpu_power_state: t.gpu_power_state,
        field_gaps: gaps,
        gpus,
        ts: t.ts.clone(),
    }
}

} // verus!
