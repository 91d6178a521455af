//! The remaining operations of the mock backend: profile, battery, fan,
//! power-limit, display, lighting, AniMe, telemetry and automation roles.
use vstd::prelude::*;

use crate::error::{ProviderError, ProviderErrorView};
use crate::limits::{PowerLimitField, PowerLimitValue, PowerLimits};
use crate::mock::{
    default_curve, is_default_points, mode_error, state_error, ActionRequirement, ApplyResult, ChargeLimit, DisplayMode, FanCurve,
    FanCurvePoint, LightingMode, MockErrorMode, MockProvider, MockState, MockStateError, PerformanceProfile,
    RefreshHz,
};
use crate::text::str_eq;
use crate::telemetry::{clone_fan_id, clone_telemetry, FanId, FanIdView, Percent, Rpm, Telemetry};

verus! {

/// The state after one counted operation that changes nothing else.
pub open spec fn counted(s: MockState) -> MockState {
    MockState { ops: (s.ops + 1) as u64, ..s }
}

/// A copy of a vector of plain values.
pub fn copy_vec<T: Copy>(v: &Vec<T>) -> (c: Vec<T>)
    ensures
        c@ == v@,
{
    let mut c: Vec<T> = Vec::new();
    let mut i: usize = 0;
    while i < v.len()
        invariant
            0 <= i <= v@.len(),
            c@ == v@.take(i as int),
        decreases v@.len() - i,
    {
        c.push(v[i]);
        assert(v@.take(i + 1) =~= v@.take(i as int).push(v@[i as int]));
        i = i + 1;
    }
    assert(v@.take(v@.len() as int) =~= v@);
    c
}

impl MockProvider {
    /// The offered profiles (a counted read).
    pub fn profiles(&mut self) -> (r: Result<Vec<PerformanceProfile>, ProviderError>)
        requires
            old(self).state.ops < u64::MAX,
        ensures
            final(self).state == counted(old(self).state),
            match mode_error(old(self).state.error_mode) {
                None => r matches Ok(v) && v@ == old(self).state.profiles@,
                Some(e) => r matches Err(x) && x@ == e,
            },
    {
        match self.begin_read() {
            Err(e) => Err(e),
            Ok(()) => Ok(copy_vec(&self.state.profiles)),
        }
    }

    /// The profile applied on AC power (a counted read).
    pub fn profile_on_ac(&mut self) -> (r: Result<Option<PerformanceProfile>, ProviderError>)
        requires
            old(self).state.ops < u64::MAX,
        ensures
            final(self).state == counted(old(self).state),
            match mode_error(old(self).state.error_mode) {
                None => r == Ok::<Option<PerformanceProfile>, ProviderError>(old(self).state.profile_on_ac),
                Some(e) => r matches Err(x) && x@ == e,
            },
    {
        match self.begin_read() {
            Err(e) => Err(e),
            Ok(()) => Ok(self.state.profile_on_ac),
        }
    }

    /// The profile applied on battery (a counted read).
    pub fn profile_on_battery(&mut self) -> (r: Result<Option<PerformanceProfile>, ProviderError>)
        requires
            old(self).state.ops < u64::MAX,
        ensures
            final(self).state == counted(old(self).state),
            match mode_error(old(self).state.error_mode) {
                None => r == Ok::<Option<PerformanceProfile>, ProviderError>(old(self).state.profile_on_battery),
                Some(e) => r matches Err(x) && x@ == e,
            },
    {
        match self.begin_read() {
            Err(e) => Err(e),
            Ok(()) => Ok(self.state.profile_on_battery),
        }
    }

    /// The battery charge limit (a counted read).
    pub fn charge_limit(&mut self) -> (r: Result<ChargeLimit, ProviderError>)
        requires
            old(self).state.ops < u64::MAX,
        ensures
            final(self).state == counted(old(self).state),
            match mode_error(old(self).state.error_mode) {
                None => r == Ok::<ChargeLimit, ProviderError>(old(self).state.charge_limit),
                Some(e) => r matches Err(x) && x@ == e,
            },
    {
        match self.begin_read() {
            Err(e) => Err(e),
            Ok(()) => Ok(self.state.charge_limit),
        }
    }

    /// Charge once to the upper bound of the charge limit (a counted
    /// mutation).
    pub fn one_shot_full_charge(&mut self) -> (r: Result<ApplyResult, ProviderError>)
        requires
            old(self).state.ops < u64::MAX,
            old(self).state.error_mode == MockErrorMode::NoError ==> old(self).state.charge_limit.bounds is Some,
        ensures
            match mode_error(old(self).state.error_mode) {
                None => r == Ok::<ApplyResult, ProviderError>(ApplyResult::Applied) && final(self).state == (
                MockState {
                    ops: (old(self).state.ops + 1) as u64,
                    charge_limit: ChargeLimit {
                        percent: Some(old(self).state.charge_limit.bounds->0.max),
                        ..old(self).state.charge_limit
                    },
                    ..old(self).state
                }),
                Some(e) => r matches Err(x) && x@ == e && final(self).state == old(self).state,
            },
    {
        match self.begin_mutation() {
            Err(e) => Err(e),
            Ok(()) => {
                match self.state.charge_limit.bounds {
                    Some(b) => {
                        self.state.charge_limit.percent = Some(b.max);
                    },
                    None => vstd::pervasive::unreached(),
                }
                Ok(ApplyResult::Applied)
            },
        }
    }
}

/// Spec view of a fan curve.
pub struct FanCurveView {
    /// Profile.
    pub profile: PerformanceProfile,
    /// Fan.
    pub fan: FanIdView,
    /// Points.
    pub points: Seq<FanCurvePoint>,
}

/// The view of a curve.
pub open spec fn curve_view(c: FanCurve) -> FanCurveView {
    FanCurveView { profile: c.profile, fan: c.fan@, points: c.points@ }
}

/// The views of stored curves, in order.
pub open spec fn curves_view(cs: Seq<FanCurve>) -> Seq<FanCurveView> {
    cs.map_values(|c: FanCurve| curve_view(c))
}

/// Whether a curve belongs to `profile` and `fan`.
pub open spec fn same_key(c: FanCurveView, profile: PerformanceProfile, fan: FanIdView) -> bool {
    c.profile == profile && c.fan == fan
}

/// Whether `i` is the first curve stored for `profile` and `fan`.
pub open spec fn first_key(cs: Seq<FanCurveView>, profile: PerformanceProfile, fan: FanIdView, i: int) -> bool {
    &&& 0 <= i < cs.len()
    &&& same_key(cs[i], profile, fan)
    &&& forall|j: int| 0 <= j < i ==> !same_key(#[trigger] cs[j], profile, fan)
}

/// Whether any curve is stored for `profile` and `fan`.
pub open spec fn has_key(cs: Seq<FanCurveView>, profile: PerformanceProfile, fan: FanIdView) -> bool {
    exists|i: int| 0 <= i < cs.len() && same_key(#[trigger] cs[i], profile, fan)
}

/// Store `c`, replacing the curve already stored for its profile and fan,
/// or appending it.
pub open spec fn upsert_curve(cs: Seq<FanCurveView>, c: FanCurveView) -> Seq<FanCurveView> {
    if has_key(cs, c.profile, c.fan) {
        cs.update(choose|i: int| first_key(cs, c.profile, c.fan, i), c)
    } else {
        cs.push(c)
    }
}

/// Whether two fan ids are the same fan.
pub fn fan_id_eq(a: &FanId, b: &FanId) -> (r: bool)
    ensures
        r == (a@ == b@),
{
    match (a, b) {
        (FanId::Cpu, FanId::Cpu) => true,
        (FanId::Gpu, FanId::Gpu) => true,
        (FanId::Mid, FanId::Mid) => true,
        (FanId::System, FanId::System) => true,
        (FanId::Other(x), FanId::Other(y)) => str_eq(x.as_str(), y.as_str()),
        _ => false,
    }
}

/// A copy of a curve.
pub fn clone_curve(c: &FanCurve) -> (d: FanCurve)
    ensures
        curve_view(d) == curve_view(*c),
{
    FanCurve { profile: c.profile, fan: clone_fan_id(&c.fan), points: copy_vec(&c.points) }
}

/// The first stored curve for `profile` and `fan`.
fn find_curve(curves: &Vec<FanCurve>, profile: PerformanceProfile, fan: &FanId) -> (r: Option<usize>)
    ensures
        match r {
            Some(i) => first_key(curves_view(curves@), profile, fan@, i as int),
            None => !has_key(curves_view(curves@), profile, fan@),
        },
{
    let ghost cv = curves_view(curves@);
    let mut i: usize = 0;
    while i < curves.len()
        invariant
            0 <= i <= curves@.len(),
            cv == curves_view(curves@),
            forall|j: int| 0 <= j < i ==> !same_key(#[trigger] cv[j], profile, fan@),
        decreases curves@.len() - i,
    {
        if curves[i].profile == profile && fan_id_eq(&curves[i].fan, fan) {
            assert(same_key(cv[i as int], profile, fan@));
            return Some(i);
        }
        assert(!same_key(cv[i as int], profile, fan@));
        i = i + 1;
    }
    None
}

/// Store `c` as [`upsert_curve`] describes.
fn store_curve(curves: &mut Vec<FanCurve>, c: FanCurve)
    ensures
        curves_view(final(curves)@) == upsert_curve(curves_view(old(curves)@), curve_view(c)),
{
    let ghost before = curves_view(curves@);
    let ghost cv = curve_view(c);
    match find_curve(curves, c.profile, &c.fan) {
        Some(i) => {
            proof {
                assert(has_key(before, cv.profile, cv.fan)) by {
                    assert(same_key(before[i as int], cv.profile, cv.fan));
                }
                let k = choose|k: int| first_key(before, cv.profile, cv.fan, k);
                if k < i {
                    assert(!same_key(before[k], cv.profile, cv.fan));
                } else if k > i {
                    assert(!same_key(before[i as int], cv.profile, cv.fan));
                }
                assert(k == i);
            }
            curves.set(i, c);
            assert(curves_view(curves@) =~= before.update(i as int, cv));
        },
        None => {
            curves.push(c);
            assert(curves_view(curves@) =~= before.push(cv));
        },
    }
}

impl MockProvider {
    /// Fan speeds (a counted read).
    pub fn fan_rpms(&mut self) -> (r: Result<Vec<(FanId, Rpm)>, ProviderError>)
        requires
            old(self).state.ops < u64::MAX,
        ensures
            final(self).state == counted(old(self).state),
            match mode_error(old(self).state.error_mode) {
                None => r matches Ok(v) && v@.map_values(|f: (FanId, Rpm)| (f.0@, f.1)) == old(
                    self,
                ).state.fans@.map_values(|f: (FanId, Rpm)| (f.0@, f.1)),
                Some(e) => r matches Err(x) && x@ == e,
            },
    {
        match self.begin_read() {
            Err(e) => Err(e),
            Ok(()) => {
                let mut out: Vec<(FanId, Rpm)> = Vec::new();
                let mut i: usize = 0;
                while i < self.state.fans.len()
                    invariant
                        0 <= i <= self.state.fans@.len(),
                        self.state == counted(old(self).state),
                        out@.map_values(|f: (FanId, Rpm)| (f.0@, f.1)) == self.state.fans@.take(
                            i as int,
                        ).map_values(|f: (FanId, Rpm)| (f.0@, f.1)),
                    decreases self.state.fans@.len() - i,
                {
                    let ghost before = out@;
                    let id = clone_fan_id(&self.state.fans[i].0);
                    let rpm = self.state.fans[i].1;
                    out.push((id, rpm));
                    assert(out@.map_values(|f: (FanId, Rpm)| (f.0@, f.1)) =~= before.map_values(
                        |f: (FanId, Rpm)| (f.0@, f.1),
                    ).push((id@, rpm)));
                    assert(self.state.fans@.take(i + 1).map_values(|f: (FanId, Rpm)| (f.0@, f.1))
                        =~= self.state.fans@.take(i as int).map_values(|f: (FanId, Rpm)| (f.0@, f.1)).push(
                        (self.state.fans@[i as int].0@, self.state.fans@[i as int].1),
                    ));
                    i = i + 1;
                }
                assert(self.state.fans@.take(self.state.fans@.len() as int) =~= self.state.fans@);
                Ok(out)
            },
        }
    }

    /// The curve of `fan` under `profile` (a counted read); unsupported
    /// when none is stored.
    pub fn fan_curve(&mut self, profile: PerformanceProfile, fan: &FanId) -> (r: Result<FanCurve, ProviderError>)
        requires
            old(self).state.ops < u64::MAX,
        ensures
            final(self).state == counted(old(self).state),
            match mode_error(old(self).state.error_mode) {
                Some(e) => r matches Err(x) && x@ == e,
                None => if has_key(curves_view(old(self).state.fan_curves@), profile, fan@) {
                    r matches Ok(c) && exists|i: int|
                        first_key(curves_view(old(self).state.fan_curves@), profile, fan@, i) && curve_view(c)
                            == curves_view(old(self).state.fan_curves@)[i]
                } else {
                    r matches Err(x) && x@ == state_error(MockStateError::Unsupported)
                },
            },
    {
        match self.begin_read() {
            Err(e) => Err(e),
            Ok(()) => match find_curve(&self.state.fan_curves, profile, fan) {
                Some(i) => {
                    let c = clone_curve(&self.state.fan_curves[i]);
                    assert(curves_view(self.state.fan_curves@)[i as int] == curve_view(self.state.fan_curves@[i as int]));
                    Ok(c)
                },
                None => Err(MockStateError::Unsupported.to_provider()),
            },
        }
    }

    /// Restore the default CPU and GPU curves of `profile` (a counted
    /// mutation).
    pub fn set_curves_to_defaults(&mut self, profile: PerformanceProfile) -> (r: Result<ApplyResult, ProviderError>)
        requires
            old(self).state.ops < u64::MAX,
        ensures
            match mode_error(old(self).state.error_mode) {
                Some(e) => r matches Err(x) && x@ == e && final(self).state == old(self).state,
                None => {
                    &&& r == Ok::<ApplyResult, ProviderError>(ApplyResult::Applied)
                    &&& final(self).state == (MockState {
                        fan_curves: final(self).state.fan_curves,
                        ..counted(old(self).state)
                    })
                    &&& exists|cpu: Seq<FanCurvePoint>, gpu: Seq<FanCurvePoint>|
                        is_default_points(profile, cpu) && is_default_points(profile, gpu) && curves_view(
                            final(self).state.fan_curves@,
                        ) == upsert_curve(
                            upsert_curve(
                                curves_view(old(self).state.fan_curves@),
                                FanCurveView { profile, fan: FanIdView::Cpu, points: cpu },
                            ),
                            FanCurveView { profile, fan: FanIdView::Gpu, points: gpu },
                        )
                },
            },
    {
        match self.begin_mutation() {
            Err(e) => Err(e),
            Ok(()) => {
                let cpu = default_curve(profile, FanId::Cpu);
                let gpu = default_curve(profile, FanId::Gpu);
                let ghost (pc, pg) = (cpu.points@, gpu.points@);
                store_curve(&mut self.state.fan_curves, cpu);
                store_curve(&mut self.state.fan_curves, gpu);
                assert(curves_view(self.state.fan_curves@) == upsert_curve(
                    upsert_curve(
                        curves_view(old(self).state.fan_curves@),
                        FanCurveView { profile, fan: FanIdView::Cpu, points: pc },
                    ),
                    FanCurveView { profile, fan: FanIdView::Gpu, points: pg },
                ));
                Ok(ApplyResult::Applied)
            },
        }
    }
}

/// Power limits with every field that has a firmware default set back to it.
pub open spec fn restored(fields: Seq<(PowerLimitField, PowerLimitValue)>) -> Seq<(PowerLimitField, PowerLimitValue)> {
    fields.map_values(
        |f: (PowerLimitField, PowerLimitValue)|
            match f.1.default {
                Some(d) => (f.0, PowerLimitValue { value: d, ..f.1 }),
                None => f,
            },
    )
}

impl MockProvider {
    /// The power limits (a counted read).
    pub fn power_limits(&mut self) -> (r: Result<PowerLimits, ProviderError>)
        requires
            old(self).state.ops < u64::MAX,
        ensures
            final(self).state == counted(old(self).state),
            match mode_error(old(self).state.error_mode) {
                None => r matches Ok(l) && l.fields@ == old(self).state.power_limits.fields@,
                Some(e) => r matches Err(x) && x@ == e,
            },
    {
        match self.begin_read() {
            Err(e) => Err(e),
            Ok(()) => Ok(PowerLimits { fields: copy_vec(&self.state.power_limits.fields) }),
        }
    }

    /// Set every limit that has a firmware default back to it (a counted
    /// mutation).
    pub fn restore_defaults(&mut self) -> (r: Result<ApplyResult, ProviderError>)
        requires
            old(self).state.ops < u64::MAX,
        ensures
            match mode_error(old(self).state.error_mode) {
                Some(e) => r matches Err(x) && x@ == e && final(self).state == old(self).state,
                None => {
                    &&& r == Ok::<ApplyResult, ProviderError>(ApplyResult::Applied)
                    &&& final(self).state == (MockState {
                        power_limits: final(self).state.power_limits,
                        ..counted(old(self).state)
                    })
                    &&& final(self).state.power_limits.fields@ == restored(old(self).state.power_limits.fields@)
                },
            },
            old(self).state.power_limits.wf() ==> final(self).state.power_limits.wf(),
    {
        match self.begin_mutation() {
            Err(e) => Err(e),
            Ok(()) => {
                let ghost before = self.state.power_limits.fields@;
                let mut fields: Vec<(PowerLimitField, PowerLimitValue)> = Vec::new();
                let mut i: usize = 0;
                while i < self.state.power_limits.fields.len()
                    invariant
                        0 <= i <= before.len(),
                        self.state == counted(old(self).state),
                        before == old(self).state.power_limits.fields@,
                        fields@ == restored(before.take(i as int)),
                    decreases before.len() - i,
                {
                    let (f, v) = self.state.power_limits.fields[i];
                    let n = match v.default {
                        Some(d) => (f, PowerLimitValue { value: d, ..v }),
                        None => (f, v),
                    };
                    fields.push(n);
                    assert(restored(before.take(i + 1)) =~= restored(before.take(i as int)).push(n));
                    i = i + 1;
                }
                assert(before.take(before.len() as int) =~= before);
                proof {
                    let after = restored(before);
                    assert forall|a: int| 0 <= a < after.len() implies #[trigger] after[a].0 == before[a].0 by {}
                }
                self.state.power_limits = PowerLimits { fields };
                Ok(ApplyResult::Applied)
            },
        }
    }

    /// The panel display state (a counted read).
    pub fn display_mode(&mut self) -> (r: Result<DisplayMode, ProviderError>)
        requires
            old(self).state.ops < u64::MAX,
        ensures
            final(self).state == counted(old(self).state),
            match mode_error(old(self).state.error_mode) {
                None => r matches Ok(d) && d.current_hz == old(self).state.display.current_hz && d.modes@ == old(
                    self,
                ).state.display.modes@ && d.overdrive == old(self).state.display.overdrive && d.hdr == old(
                    self,
                ).state.display.hdr,
                Some(e) => r matches Err(x) && x@ == e,
            },
    {
        match self.begin_read() {
            Err(e) => Err(e),
            Ok(()) => Ok(
                DisplayMode {
                    current_hz: self.state.display.current_hz,
                    modes: copy_vec(&self.state.display.modes),
                    overdrive: self.state.display.overdrive,
                    hdr: self.state.display.hdr,
                },
            ),
        }
    }

    /// Turn panel overdrive on or off (a counted mutation).
    pub fn set_overdrive(&mut self, enabled: bool) -> (r: Result<ApplyResult, ProviderError>)
        requires
            old(self).state.ops < u64::MAX,
        ensures
            match mode_error(old(self).state.error_mode) {
                Some(e) => r matches Err(x) && x@ == e && final(self).state == old(self).state,
                None => r == Ok::<ApplyResult, ProviderError>(ApplyResult::Applied) && final(self).state == (
                MockState {
                    display: DisplayMode { overdrive: Some(enabled), ..old(self).state.display },
                    ..counted(old(self).state)
                }),
            },
    {
        match self.begin_mutation() {
            Err(e) => Err(e),
            Ok(()) => {
                self.state.display.overdrive = Some(enabled);
                Ok(ApplyResult::Applied)
            },
        }
    }

    /// The keyboard lighting mode (a counted read).
    pub fn lighting_mode(&mut self) -> (r: Result<LightingMode, ProviderError>)
        requires
            old(self).state.ops < u64::MAX,
        ensures
            final(self).state == counted(old(self).state),
            match mode_error(old(self).state.error_mode) {
                None => r == Ok::<LightingMode, ProviderError>(old(self).state.lighting),
                Some(e) => r matches Err(x) && x@ == e,
            },
    {
        match self.begin_read() {
            Err(e) => Err(e),
            Ok(()) => Ok(self.state.lighting),
        }
    }

    /// Keyboard brightness: the mock keeps no brightness; the counted
    /// mutation only clears the battery reading of its telemetry sample.
    pub fn set_lighting_brightness(&mut self, percent: Percent) -> (r: Result<ApplyResult, ProviderError>)
        requires
            old(self).state.ops < u64::MAX,
        ensures
            match mode_error(old(self).state.error_mode) {
                Some(e) => r matches Err(x) && x@ == e && final(self).state == old(self).state,
                None => r == Ok::<ApplyResult, ProviderError>(ApplyResult::Applied) && final(self).state == (
                MockState {
                    telemetry: Telemetry { battery: None, ..old(self).state.telemetry },
                    ..counted(old(self).state)
                }),
            },
    {
        match self.begin_mutation() {
            Err(e) => Err(e),
            Ok(()) => {
                self.state.telemetry.battery = None;
                Ok(ApplyResult::Applied)
            },
        }
    }

    /// Whether the AniMe display is on: rainbow lighting (a counted read).
    pub fn anime_enabled(&mut self) -> (r: Result<bool, ProviderError>)
        requires
            old(self).state.ops < u64::MAX,
        ensures
            final(self).state == counted(old(self).state),
            match mode_error(old(self).state.error_mode) {
                None => r == Ok::<bool, ProviderError>(old(self).state.lighting == LightingMode::Rainbow),
                Some(e) => r matches Err(x) && x@ == e,
            },
    {
        match self.begin_read() {
            Err(e) => Err(e),
            Ok(()) => Ok(self.state.lighting == LightingMode::Rainbow),
        }
    }

    /// AniMe brightness: the mock keeps none; the mutation is only counted.
    pub fn anime_set_brightness(&mut self, percent: Percent) -> (r: Result<ApplyResult, ProviderError>)
        requires
            old(self).state.ops < u64::MAX,
        ensures
            match mode_error(old(self).state.error_mode) {
                Some(e) => r matches Err(x) && x@ == e && final(self).state == old(self).state,
                None => r == Ok::<ApplyResult, ProviderError>(ApplyResult::Applied) && final(self).state == counted(
                    old(self).state,
                ),
            },
    {
        match self.begin_mutation() {
            Err(e) => Err(e),
            Ok(()) => Ok(ApplyResult::Applied),
        }
    }

    /// The stored telemetry sample (a counted read).
    pub fn snapshot(&mut self) -> (r: Result<Telemetry, ProviderError>)
        requires
            old(self).state.ops < u64::MAX,
        ensures
            final(self).state == counted(old(self).state),
            match mode_error(old(self).state.error_mode) {
                None => r matches Ok(t) && t@ == old(self).state.telemetry@,
                Some(e) => r matches Err(x) && x@ == e,
            },
    {
        match self.begin_read() {
            Err(e) => Err(e),
            Ok(()) => Ok(clone_telemetry(&self.state.telemetry)),
        }
    }
}

/// When an automation rule fires.
#[derive(Debug, Clone, Copy, PartialEq, Eq, Structural)]
pub enum AutomationTrigger {
    /// On AC power.
    OnAc,
    /// On battery.
    OnBattery,
}

/// What an automation rule does.
#[derive(Debug, Clone, Copy, PartialEq, Eq, Structural)]
pub enum AutomationAction {
    /// Select a performance profile.
    SetProfile(PerformanceProfile),
}

/// An automation rule.
#[derive(Debug, Clone, PartialEq, Eq)]
pub struct AutomationRule {
    /// Rule identifier.
    pub id: String,
    /// Trigger.
    pub trigger: AutomationTrigger,
    /// Action.
    pub action: AutomationAction,
    /// Priority.
    pub priority: u32,
}

impl AutomationRule {
    /// A rule.
    pub fn new(id: &str, trigger: AutomationTrigger, action: AutomationAction, priority: u32) -> (r: Self)
        ensures
            r.id@ == id@,
            r.trigger == trigger,
            r.action == action,
            r.priority == priority,
    {
        AutomationRule { id: id.to_owned(), trigger, action, priority }
    }
}

impl MockProvider {
    /// The two built-in rules: Balanced on AC and Silent on battery, both at
    /// priority 10. Neither counted nor subject to the error mode.
    pub fn rules(&self) -> (r: Result<Vec<AutomationRule>, ProviderError>)
        ensures
            r matches Ok(v) && v@.len() == 2 && v@[0].id@ == "ac-profile"@ && v@[0].trigger
                == AutomationTrigger::OnAc && v@[0].action == AutomationAction::SetProfile(PerformanceProfile::Balanced)
                && v@[0].priority == 10 && v@[1].id@ == "battery-profile"@ && v@[1].trigger
                == AutomationTrigger::OnBattery && v@[1].action == AutomationAction::SetProfile(
                PerformanceProfile::Silent,
            ) && v@[1].priority == 10,
    {
        let mut v: Vec<AutomationRule> = Vec::new();
        v.push(
            AutomationRule::new(
                "ac-profile",
                AutomationTrigger::OnAc,
                AutomationAction::SetProfile(PerformanceProfile::Balanced),
                10,
            ),
        );
        v.push(
            AutomationRule::new(
                "battery-profile",
                AutomationTrigger::OnBattery,
                AutomationAction::SetProfile(PerformanceProfile::Silent),
                10,
            ),
        );
        Ok(v)
    }

    /// Apply a rule: its profile is selected as [`MockProvider::set_profile`]
    /// does, and a failure of that selection is the rule's failure.
    pub fn apply_rule(&mut self, rule: &AutomationRule) -> (r: Result<(), ProviderError>)
        requires
            old(self).state.ops < u64::MAX,
        ensures
            match rule.action {
                AutomationAction::SetProfile(profile) => match mode_error(old(self).state.error_mode) {
                    Some(e) => r matches Err(x) && x@ == e && final(self).state == old(self).state,
                    None => if old(self).state.profiles@.contains(profile) {
                        r is Ok && final(self).state == (MockState { profile, ..counted(old(self).state) })
                    } else {
                        r matches Err(x) && x@ == state_error(MockStateError::Unsupported) && final(self).state
                            == counted(old(self).state)
                    },
                },
            },
    {
        match rule.action {
            AutomationAction::SetProfile(p) => match self.set_profile(p) {
                Ok(_) => Ok(()),
                Err(e) => Err(e),
            },
        }
    }
}

/// A firmware update on offer.
#[derive(Debug, Clone, PartialEq, Eq)]
pub struct FirmwareUpdate {
    /// Where it comes from.
    pub source: String,
    /// Its version.
    pub version: String,
    /// What applying it requires.
    pub requirement: ActionRequirement,
}

impl MockProvider {
    /// Firmware updates on offer: the mock offers none, and the query is
    /// neither counted nor subject to the error mode.
    pub fn check_updates(&self) -> (r: Result<Vec<FirmwareUpdate>, ProviderError>)
        ensures
            r matches Ok(v) && v@.len() == 0,
    {
        Ok(Vec::new())
    }
}

} // verus!
