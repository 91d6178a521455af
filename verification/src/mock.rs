//! Mock provider for mock-first development.
//!
//! Every operation changes only the in-memory [`MockState`]; nothing touches
//! hardware. An error mode makes every operation fail; a failed mutation
//! leaves the state as it was. Reads and successful mutations count as
//! operations.
use vstd::prelude::*;
use vstd::string::*;

use crate::diagnostics::DiagnosticEntry;
use crate::error::{ProviderError, ProviderErrorView, ValidationResult};
use crate::gpu::{GpuAccessPolicy, GpuMuxState, GpuPowerState};
use crate::limits::{limit_of, PowerLimitField, PowerLimitValue, PowerLimits};
use crate::telemetry::{clone_fan_id, FanId, Percent, PowerTelemetry, Rpm, Telemetry, TemperatureC};
use crate::text::str_eq;

verus! {

/// Performance profile.
#[derive(Debug, Clone, Copy, PartialEq, Eq, Structural)]
pub enum PerformanceProfile {
    /// Quiet.
    Silent,
    /// Balanced.
    Balanced,
    /// Maximum performance.
    Turbo,
}

/// Every profile, in order.
pub open spec fn all_profiles() -> Seq<PerformanceProfile> {
    seq![PerformanceProfile::Silent, PerformanceProfile::Balanced, PerformanceProfile::Turbo]
}

/// Requested GPU mode.
#[derive(Debug, Clone, Copy, PartialEq, Eq, Structural)]
pub enum GpuMode {
    /// Hybrid graphics, dGPU available.
    Standard,
    /// Hybrid graphics, dGPU blocked.
    Optimized,
    /// dGPU drives the display through the MUX.
    Ultimate,
    /// dGPU powered off.
    Eco,
}

/// What applying a change needs.
#[derive(Debug, Clone, Copy, PartialEq, Eq, Structural)]
pub enum ActionRequirement {
    /// Nothing: the change applies at once.
    NotRequired,
    /// A reboot.
    Reboot,
    /// A logout.
    Logout,
}

/// Outcome of a mutation.
#[derive(Debug, Clone, Copy, PartialEq, Eq, Structural)]
pub enum ApplyResult {
    /// Applied now.
    Applied,
    /// Accepted; applies after the requirement is met.
    Pending { requirement: ActionRequirement },
}

impl ApplyResult {
    /// Whether the change applied now.
    pub fn is_applied(&self) -> (b: bool)
        ensures
            b == (*self is Applied),
    {
        match self {
            ApplyResult::Applied => true,
            ApplyResult::Pending { .. } => false,
        }
    }
}

/// A change waiting for its requirement.
#[derive(Debug, Clone, PartialEq, Eq)]
pub struct PendingAction {
    /// Stable action identity.
    pub id: String,
    /// What the action changes.
    pub target: String,
    /// What it needs.
    pub requirement: ActionRequirement,
    /// Whether it can be cancelled.
    pub cancelable: bool,
    /// Who created it.
    pub created_by: String,
}

/// Bounds of the battery charge limit.
#[derive(Debug, Clone, Copy, PartialEq, Eq, Structural)]
pub struct ChargeLimitBounds {
    /// Lowest limit.
    pub min: Percent,
    /// Highest limit.
    pub max: Percent,
    /// Step between limits.
    pub step: u8,
}

/// Battery charge limit.
#[derive(Debug, Clone, Copy, PartialEq, Eq, Structural)]
pub struct ChargeLimit {
    /// Whether a limit is active.
    pub enabled: bool,
    /// The limit.
    pub percent: Option<Percent>,
    /// Its bounds.
    pub bounds: Option<ChargeLimitBounds>,
}

/// A panel refresh rate in whole hertz.
#[derive(Debug, Clone, Copy, PartialEq, Eq, Structural)]
pub struct RefreshHz(pub u16);

impl RefreshHz {
    /// The rate.
    pub fn get(&self) -> (v: u16)
        ensures
            v == self.0,
    {
        self.0
    }
}

/// HDR state.
#[derive(Debug, Clone, Copy, PartialEq, Eq, Structural)]
pub enum HdrState {
    /// Off.
    Disabled,
    /// On.
    Enabled,
}

/// Panel display state.
#[derive(Debug, Clone, PartialEq, Eq)]
pub struct DisplayMode {
    /// Current refresh rate.
    pub current_hz: Option<RefreshHz>,
    /// Offered refresh rates.
    pub modes: Vec<RefreshHz>,
    /// Panel overdrive.
    pub overdrive: Option<bool>,
    /// HDR.
    pub hdr: HdrState,
}

/// Keyboard lighting mode.
#[derive(Debug, Clone, Copy, PartialEq, Eq, Structural)]
pub enum LightingMode {
    /// Lighting off.
    Off,
    /// One static colour.
    Static,
    /// Breathing.
    Breathe,
    /// Rainbow.
    Rainbow,
}

/// One point of a fan curve.
#[derive(Debug, Clone, Copy, PartialEq, Eq, Structural)]
pub struct FanCurvePoint {
    /// Temperature.
    pub temp: TemperatureC,
    /// Fan duty.
    pub pwm: Percent,
}

/// A fan curve of one fan under one profile.
#[derive(Debug, Clone, PartialEq, Eq)]
pub struct FanCurve {
    /// Profile.
    pub profile: PerformanceProfile,
    /// Fan.
    pub fan: FanId,
    /// Points, by ascending temperature.
    pub points: Vec<FanCurvePoint>,
}

/// The base temperature of a profile's default curves.
pub open spec fn curve_base(p: PerformanceProfile) -> int {
    match p {
        PerformanceProfile::Silent => 35,
        PerformanceProfile::Balanced => 45,
        PerformanceProfile::Turbo => 55,
    }
}

/// The (temperature offset, duty) pairs of a default curve.
pub open spec fn default_points() -> Seq<(int, int)> {
    seq![(50, 0), (55, 8), (60, 13), (65, 26), (70, 36), (75, 54), (79, 77), (85, 100)]
}

/// Whether `points` is the default curve of `profile`: each default pair
/// shifted by the profile's base temperature.
pub open spec fn is_default_points(profile: PerformanceProfile, points: Seq<FanCurvePoint>) -> bool {
    &&& points.len() == 8
    &&& forall|i: int|
        0 <= i < 8 ==> (#[trigger] points[i]).temp@ == curve_base(profile) + default_points()[i].0 - 45
            && points[i].pwm@ == default_points()[i].1
}

/// The default curve of a fan under a profile.
pub fn default_curve(profile: PerformanceProfile, fan: FanId) -> (c: FanCurve)
    ensures
        c.profile == profile,
        c.fan == fan,
        is_default_points(profile, c.points@),
{
    let base: i16 = match profile {
        PerformanceProfile::Silent => 35,
        PerformanceProfile::Balanced => 45,
        PerformanceProfile::Turbo => 55,
    };
    let pairs: [(i16, u8); 8] = [(50, 0), (55, 8), (60, 13), (65, 26), (70, 36), (75, 54), (79, 77), (85, 100)];
    assert(pairs@ =~= seq![(50i16, 0u8), (55, 8), (60, 13), (65, 26), (70, 36), (75, 54), (79, 77), (85, 100)]);
    let mut points: Vec<FanCurvePoint> = Vec::new();
    let mut i: usize = 0;
    while i < 8
        invariant
            0 <= i <= 8,
            base == curve_base(profile),
            pairs@ == seq![(50i16, 0u8), (55, 8), (60, 13), (65, 26), (70, 36), (75, 54), (79, 77), (85, 100)],
            points@.len() == i,
            forall|j: int|
                0 <= j < i ==> (#[trigger] points@[j]).temp@ == curve_base(profile) + default_points()[j].0 - 45
                    && points@[j].pwm@ == default_points()[j].1,
        decreases 8 - i,
    {
        let (t, p) = pairs[i];
        let temp = match TemperatureC::new(base + t - 45) {
            Ok(v) => v,
            Err(_) => {
                assert(false);
                return FanCurve { profile, fan, points };
            },
        };
        let pwm = match Percent::new(p) {
            Ok(v) => v,
            Err(_) => {
                assert(false);
                return FanCurve { profile, fan, points };
            },
        };
        points.push(FanCurvePoint { temp, pwm });
        i = i + 1;
    }
    FanCurve { profile, fan, points }
}

/// How the mock fails.
#[derive(Debug, Clone, Copy, PartialEq, Eq, Structural)]
pub enum MockErrorMode {
    /// No failure.
    NoError,
    /// The backend is down.
    BackendDown,
    /// Permission is denied.
    PermissionDenied,
    /// The feature is unsupported.
    Unsupported,
    /// Operations time out.
    Timeout,
}

/// A mock failure.
#[derive(Debug, Clone, Copy, PartialEq, Eq, Structural)]
pub enum MockStateError {
    /// The backend is down.
    BackendDown,
    /// Permission is denied.
    PermissionDenied,
    /// The feature is unsupported.
    Unsupported,
    /// The operation timed out.
    Timeout,
}

/// The provider error of a mock failure; every message is `mock`.
pub open spec fn state_error(e: MockStateError) -> ProviderErrorView {
    match e {
        MockStateError::BackendDown => ProviderErrorView::BackendUnavailable("mock"@),
        MockStateError::PermissionDenied => ProviderErrorView::PermissionDenied("mock"@),
        MockStateError::Unsupported => ProviderErrorView::Unsupported("mock"@),
        MockStateError::Timeout => ProviderErrorView::Timeout("mock"@),
    }
}

impl MockStateError {
    /// Convert into a provider error.
    pub fn to_provider(&self) -> (e: ProviderError)
        ensures
            e@ == state_error(*self),
    {
        match self {
            MockStateError::BackendDown => ProviderError::BackendUnavailable("mock".to_owned()),
            MockStateError::PermissionDenied => ProviderError::PermissionDenied("mock".to_owned()),
            MockStateError::Unsupported => ProviderError::Unsupported("mock".to_owned()),
            MockStateError::Timeout => ProviderError::Timeout("mock".to_owned()),
        }
    }

    /// The `Display` text of the failure.
    pub fn text(&self) -> (t: &'static str)
        ensures
            t@ == match *self {
                MockStateError::BackendDown => "mock backend недоступен"@,
                MockStateError::PermissionDenied => "mock: недостаточно прав"@,
                MockStateError::Unsupported => "mock: функция не поддерживается"@,
                MockStateError::Timeout => "mock: таймаут"@,
            },
    {
        match self {
            MockStateError::BackendDown => "mock backend недоступен",
            MockStateError::PermissionDenied => "mock: недостаточно прав",
            MockStateError::Unsupported => "mock: функция не поддерживается",
            MockStateError::Timeout => "mock: таймаут",
        }
    }
}

/// The failure an error mode imposes, if any.
pub open spec fn mode_error(m: MockErrorMode) -> Option<ProviderErrorView> {
    match m {
        MockErrorMode::NoError => None,
        MockErrorMode::BackendDown => Some(state_error(MockStateError::BackendDown)),
        MockErrorMode::PermissionDenied => Some(state_error(MockStateError::PermissionDenied)),
        MockErrorMode::Unsupported => Some(state_error(MockStateError::Unsupported)),
        MockErrorMode::Timeout => Some(state_error(MockStateError::Timeout)),
    }
}

/// The provider error of a failing error mode.
pub fn mock_error(mode: MockErrorMode) -> (e: ProviderError)
    requires
        mode != MockErrorMode::NoError,
    ensures
        mode_error(mode) == Some(e@),
{
    match mode {
        MockErrorMode::NoError => ProviderError::Internal("mock".to_owned()),
        MockErrorMode::BackendDown => MockStateError::BackendDown.to_provider(),
        MockErrorMode::PermissionDenied => MockStateError::PermissionDenied.to_provider(),
        MockErrorMode::Unsupported => MockStateError::Unsupported.to_provider(),
        MockErrorMode::Timeout => MockStateError::Timeout.to_provider(),
    }
}

/// State of the mock device.
#[derive(Debug)]
pub struct MockState {
    /// Current profile.
    pub profile: PerformanceProfile,
    /// Offered profiles.
    pub profiles: Vec<PerformanceProfile>,
    /// Profile on AC.
    pub profile_on_ac: Option<PerformanceProfile>,
    /// Profile on battery.
    pub profile_on_battery: Option<PerformanceProfile>,
    /// Requested GPU mode.
    pub gpu_mode: GpuMode,
    /// Physical MUX.
    pub mux: GpuMuxState,
    /// Application access to the dGPU.
    pub access_policy: GpuAccessPolicy,
    /// dGPU power state.
    pub gpu_power_state: GpuPowerState,
    /// Charge limit.
    pub charge_limit: ChargeLimit,
    /// Fan curves, one per profile and fan.
    pub fan_curves: Vec<FanCurve>,
    /// Power limits.
    pub power_limits: PowerLimits,
    /// Panel display.
    pub display: DisplayMode,
    /// Keyboard lighting.
    pub lighting: LightingMode,
    /// Fan speeds.
    pub fans: Vec<(FanId, Rpm)>,
    /// Telemetry sample.
    pub telemetry: Telemetry,
    /// Delay of each operation, in milliseconds.
    pub op_delay_ms: u64,
    /// Error mode.
    pub error_mode: MockErrorMode,
    /// Pending action (such as a MUX change after reboot).
    pub pending_action: Option<PendingAction>,
    /// Operations performed.
    pub ops: u64,
}

/// Whether `curves` holds the default curves of every profile for the CPU
/// and GPU fans, profile by profile.
pub open spec fn full_curves(curves: Seq<FanCurve>) -> bool {
    &&& curves.len() == 6
    &&& forall|i: int|
        0 <= i < 6 ==> (#[trigger] curves[i]).profile == all_profiles()[i / 2] && curves[i].fan == (if i % 2 == 0 {
            FanId::Cpu
        } else {
            FanId::Gpu
        }) && is_default_points(curves[i].profile, curves[i].points@)
}

impl MockState {
    /// The full default state: Balanced profile of three, Balanced on AC and
    /// Silent on battery, Standard GPU mode with the integrated MUX, an
    /// unblocked and active dGPU, an 80% charge limit within 40..=100 in
    /// steps of 1, default fan curves, a 165 Hz panel offering 60/120/165 Hz
    /// with overdrive on and HDR off, static lighting, CPU and GPU fans at
    /// 2400 and 2600 rpm, a telemetry sample with no reading (taken when the
    /// state is made), a 5 ms delay, no error,
    /// nothing pending and no operation yet.
    pub fn full() -> (s: Self)
        ensures
            s.profile == PerformanceProfile::Balanced,
            s.profiles@ == all_profiles(),
            s.profile_on_ac == Some(PerformanceProfile::Balanced),
            s.profile_on_battery == Some(PerformanceProfile::Silent),
            s.gpu_mode == GpuMode::Standard,
            s.mux == GpuMuxState::Integrated,
            s.access_policy == GpuAccessPolicy::Unblocked,
            s.gpu_power_state == GpuPowerState::Active,
            s.charge_limit.enabled,
            s.charge_limit.percent matches Some(p) && p@ == 80,
            s.charge_limit.bounds matches Some(b) && b.min@ == 40 && b.max@ == 100 && b.step == 1,
            full_curves(s.fan_curves@),
            s.power_limits.fields@.len() == 0,
            s.display.current_hz == Some(RefreshHz(165)),
            s.display.modes@ == seq![RefreshHz(60), RefreshHz(120), RefreshHz(165)],
            s.display.overdrive == Some(true),
            s.display.hdr == HdrState::Disabled,
            s.lighting == LightingMode::Static,
            s.fans@.len() == 2,
            s.fans@[0].0 == FanId::Cpu && s.fans@[0].1@ == 2400,
            s.fans@[1].0 == FanId::Gpu && s.fans@[1].1@ == 2600,
            s.telemetry.cpu_temp is None,
            s.telemetry.gpu_temp is None,
            s.telemetry.fans@.len() == 0,
            s.telemetry.power == PowerTelemetry::none_spec(),
            s.telemetry.ac_online is None,
            s.telemetry.battery is None,
            s.telemetry.gpu_power_state == GpuPowerState::Unknown,
            s.telemetry.field_gaps@.len() == 0,
            s.telemetry.gpus@.len() == 0,
            s.op_delay_ms == 5,
            s.error_mode == MockErrorMode::NoError,
            s.pending_action is None,
            s.ops == 0,
    {
        let mut fan_curves: Vec<FanCurve> = Vec::new();
        let profiles = [PerformanceProfile::Silent, PerformanceProfile::Balanced, PerformanceProfile::Turbo];
        assert(profiles@ =~= all_profiles());
        let mut k: usize = 0;
        while k < 3
            invariant
                0 <= k <= 3,
                profiles@ == all_profiles(),
                fan_curves@.len() == 2 * k,
                forall|i: int|
                    0 <= i < 2 * k ==> (#[trigger] fan_curves@[i]).profile == all_profiles()[i / 2]
                        && fan_curves@[i].fan == (if i % 2 == 0 {
                        FanId::Cpu
                    } else {
                        FanId::Gpu
                    }) && is_default_points(fan_curves@[i].profile, fan_curves@[i].points@),
            decreases 3 - k,
        {
            fan_curves.push(default_curve(profiles[k], FanId::Cpu));
            fan_curves.push(default_curve(profiles[k], FanId::Gpu));
            k = k + 1;
        }
        let mut profile_list: Vec<PerformanceProfile> = Vec::new();
        profile_list.push(PerformanceProfile::Silent);
        profile_list.push(PerformanceProfile::Balanced);
        profile_list.push(PerformanceProfile::Turbo);
        assert(profile_list@ =~= all_profiles());
        let mut modes: Vec<RefreshHz> = Vec::new();
        modes.push(RefreshHz(60));
        modes.push(RefreshHz(120));
        modes.push(RefreshHz(165));
        assert(modes@ =~= seq![RefreshHz(60), RefreshHz(120), RefreshHz(165)]);
        let (p40, p80, p100) = match (Percent::new(40), Percent::new(80), Percent::new(100)) {
            (Ok(a), Ok(b), Ok(c)) => (a, b, c),
            _ => vstd::pervasive::unreached(),
        };
        let (r2400, r2600) = match (Rpm::new(2400), Rpm::new(2600)) {
            (Ok(a), Ok(b)) => (a, b),
            _ => vstd::pervasive::unreached(),
        };
        let mut fans: Vec<(FanId, Rpm)> = Vec::new();
        fans.push((FanId::Cpu, r2400));
        fans.push((FanId::Gpu, r2600));
        MockState {
            profile: PerformanceProfile::Balanced,
            profiles: profile_list,
            profile_on_ac: Some(PerformanceProfile::Balanced),
            profile_on_battery: Some(PerformanceProfile::Silent),
            gpu_mode: GpuMode::Standard,
            mux: GpuMuxState::Integrated,
            access_policy: GpuAccessPolicy::Unblocked,
            gpu_power_state: GpuPowerState::Active,
            charge_limit: ChargeLimit {
                enabled: true,
                percent: Some(p80),
                bounds: Some(ChargeLimitBounds { min: p40, max: p100, step: 1 }),
            },
            fan_curves,
            power_limits: PowerLimits { fields: Vec::new() },
            display: DisplayMode { current_hz: Some(RefreshHz(165)), modes, overdrive: Some(true), hdr: HdrState::Disabled },
            lighting: LightingMode::Static,
            fans,
            telemetry: Telemetry::empty(),
            op_delay_ms: 5,
            error_mode: MockErrorMode::NoError,
            pending_action: None,
            ops: 0,
        }
    }

    /// `ok`, or the failure the error mode imposes.
    pub fn maybe_err<T>(&self, ok: T) -> (r: Result<T, ProviderError>)
        ensures
            match mode_error(self.error_mode) {
                None => r == Ok::<T, ProviderError>(ok),
                Some(e) => r matches Err(x) && x@ == e,
            },
    {
        match self.error_mode {
            MockErrorMode::NoError => Ok(ok),
            _ => Err(mock_error(self.error_mode)),
        }
    }
}

/// What a GPU mode needs before it applies.
pub open spec fn requirement_of(mode: GpuMode) -> ActionRequirement {
    match mode {
        GpuMode::Ultimate => ActionRequirement::Reboot,
        GpuMode::Eco => ActionRequirement::Logout,
        _ => ActionRequirement::NotRequired,
    }
}

/// Whether a pending action is the mock's pending MUX switch to Ultimate.
pub open spec fn is_ultimate_switch(a: PendingAction) -> bool {
    &&& a.id@ == "mock-mux"@
    &&& a.target@ == "gpu_mux: ultimate"@
    &&& a.requirement == ActionRequirement::Reboot
    &&& a.cancelable
    &&& a.created_by@ == "mock"@
}

/// The state after a successful GPU mode request (operation counted
/// separately): the requested mode always changes; a mode that needs a
/// reboot or logout leaves the applied MUX, access and power state alone and
/// is pending (Ultimate records one pending MUX switch, kept as it is when
/// already recorded); Standard and Optimized apply at once.
pub open spec fn gpu_mode_post(old: MockState, new: MockState, mode: GpuMode, r: ApplyResult) -> bool {
    let req = requirement_of(mode);
    &&& new.gpu_mode == mode
    &&& new.gpu_power_state == old.gpu_power_state
    &&& if req != ActionRequirement::NotRequired {
        &&& r == ApplyResult::Pending { requirement: req }
        &&& new.mux == old.mux
        &&& new.access_policy == old.access_policy
        &&& if mode == GpuMode::Ultimate && !(old.pending_action matches Some(a) && a.target@
            == "gpu_mux: ultimate"@) {
            new.pending_action matches Some(a) && is_ultimate_switch(a)
        } else {
            new.pending_action == old.pending_action
        }
    } else {
        &&& r == ApplyResult::Applied
        &&& new.pending_action == old.pending_action
        &&& new.mux == if mode == GpuMode::Standard || mode == GpuMode::Optimized {
            GpuMuxState::Integrated
        } else {
            old.mux
        }
        &&& new.access_policy == if mode == GpuMode::Standard {
            GpuAccessPolicy::Unblocked
        } else if mode == GpuMode::Optimized {
            GpuAccessPolicy::Blocked
        } else {
            old.access_policy
        }
    }
}

/// Whether two states agree on every field but the GPU and operation fields.
pub open spec fn same_but_gpu(a: MockState, b: MockState) -> bool {
    &&& a.profile == b.profile
    &&& a.profiles == b.profiles
    &&& a.profile_on_ac == b.profile_on_ac
    &&& a.profile_on_battery == b.profile_on_battery
    &&& a.charge_limit == b.charge_limit
    &&& a.fan_curves == b.fan_curves
    &&& a.power_limits == b.power_limits
    &&& a.display == b.display
    &&& a.lighting == b.lighting
    &&& a.fans == b.fans
    &&& a.telemetry == b.telemetry
    &&& a.op_delay_ms == b.op_delay_ms
    &&& a.error_mode == b.error_mode
}

/// What a profile read does: it counts one operation and gives the current
/// profile, or the error mode's error.
pub open spec fn profile_read_outcome(old: MockState, new: MockState, r: Result<PerformanceProfile, ProviderError>) -> bool {
    &&& new == (MockState { ops: (old.ops + 1) as u64, ..old })
    &&& match mode_error(old.error_mode) {
        None => r == Ok::<PerformanceProfile, ProviderError>(old.profile),
        Some(e) => r matches Err(x) && x@ == e,
    }
}

/// What a profile request does: under an error mode it fails and changes
/// nothing; otherwise it counts one operation and selects the profile when it
/// is offered, else fails as unsupported.
pub open spec fn set_profile_outcome(
    old: MockState,
    new: MockState,
    profile: PerformanceProfile,
    r: Result<ApplyResult, ProviderError>,
) -> bool {
    match mode_error(old.error_mode) {
        Some(e) => r matches Err(x) && x@ == e && new == old,
        None => if old.profiles@.contains(profile) {
            r == Ok::<ApplyResult, ProviderError>(ApplyResult::Applied) && new == (MockState {
                profile,
                ops: (old.ops + 1) as u64,
                ..old
            })
        } else {
            r matches Err(x) && x@ == state_error(MockStateError::Unsupported) && new == (MockState {
                ops: (old.ops + 1) as u64,
                ..old
            })
        },
    }
}

/// What a GPU mode request does: under an error mode it fails with that
/// mode's error and changes nothing; otherwise it counts one operation, keeps
/// every field but the GPU ones, and ends as [`gpu_mode_post`] says.
pub open spec fn set_mode_outcome(old: MockState, new: MockState, mode: GpuMode, r: Result<ApplyResult, ProviderError>) -> bool {
    match mode_error(old.error_mode) {
        Some(e) => r matches Err(x) && x@ == e && new == old,
        None => r matches Ok(a) && gpu_mode_post(old, new, mode, a) && same_but_gpu(old, new) && new.ops == old.ops + 1,
    }
}

/// Mock provider over an in-memory state.
#[derive(Debug)]
pub struct MockProvider {
    /// The state.
    pub state: MockState,
}

impl MockProvider {
    /// A provider over `state`.
    pub fn new(state: MockState) -> (p: Self)
        ensures
            p.state == state,
    {
        MockProvider { state }
    }

    /// The state.
    pub fn state(&self) -> (s: &MockState)
        ensures
            *s == self.state,
    {
        &self.state
    }

    /// Provider diagnostics.
    pub fn diagnostics(&self) -> (v: Vec<DiagnosticEntry>)
        ensures
            v@.len() == 1,
            v@[0].key@ == "provider.mock"@,
            v@[0].value@ == "mock backend v0.1.0 (Этап 2, без аппаратных операций)"@,
    {
        let mut v = Vec::new();
        v.push(DiagnosticEntry::new("provider.mock", "mock backend v0.1.0 (Этап 2, без аппаратных операций)"));
        v
    }

    /// Count a read and apply the error mode.
    pub(crate) fn begin_read(&mut self) -> (r: Result<(), ProviderError>)
        requires
            old(self).state.ops < u64::MAX,
        ensures
            final(self).state == (MockState { ops: (old(self).state.ops + 1) as u64, ..old(self).state }),
            match mode_error(old(self).state.error_mode) {
                None => r is Ok,
                Some(e) => r matches Err(x) && x@ == e,
            },
    {
        self.state.ops = self.state.ops + 1;
        match self.state.error_mode {
            MockErrorMode::NoError => Ok(()),
            _ => Err(mock_error(self.state.error_mode)),
        }
    }

    /// Refuse a mutation under an error mode (leaving the state alone), or
    /// count it.
    pub(crate) fn begin_mutation(&mut self) -> (r: Result<(), ProviderError>)
        requires
            old(self).state.ops < u64::MAX,
        ensures
            match mode_error(old(self).state.error_mode) {
                None => r is Ok && final(self).state == (MockState {
                    ops: (old(self).state.ops + 1) as u64,
                    ..old(self).state
                }),
                Some(e) => r matches Err(x) && x@ == e && final(self).state == old(self).state,
            },
    {
        match self.state.error_mode {
            MockErrorMode::NoError => {
                self.state.ops = self.state.ops + 1;
                Ok(())
            },
            _ => Err(mock_error(self.state.error_mode)),
        }
    }

    /// The current profile (a counted read).
    pub fn current_profile(&mut self) -> (r: Result<PerformanceProfile, ProviderError>)
        requires
            old(self).state.ops < u64::MAX,
        ensures
            profile_read_outcome(old(self).state, final(self).state, r),
    {
        match self.begin_read() {
            Ok(()) => Ok(self.state.profile),
            Err(e) => Err(e),
        }
    }

    /// Select a profile: it must be offered.
    pub fn set_profile(&mut self, profile: PerformanceProfile) -> (r: Result<ApplyResult, ProviderError>)
        requires
            old(self).state.ops < u64::MAX,
        ensures
            set_profile_outcome(old(self).state, final(self).state, profile, r),
    {
        match self.begin_mutation() {
            Err(e) => {
                return Err(e);
            },
            Ok(()) => {},
        }
        let mut i: usize = 0;
        while i < self.state.profiles.len()
            invariant
                0 <= i <= self.state.profiles@.len(),
                self.state == (MockState { ops: (old(self).state.ops + 1) as u64, ..old(self).state }),
                mode_error(old(self).state.error_mode) is None,
                forall|j: int| 0 <= j < i ==> self.state.profiles@[j] != profile,
            decreases self.state.profiles@.len() - i,
        {
            if self.state.profiles[i] == profile {
                self.state.profile = profile;
                return Ok(ApplyResult::Applied);
            }
            i = i + 1;
        }
        Err(MockStateError::Unsupported.to_provider())
    }

    /// Accept a profile request (every profile is valid).
    pub fn validate_set_profile(&self, profile: PerformanceProfile) -> (v: ValidationResult)
        ensures
            v == ValidationResult::Valid,
    {
        ValidationResult::Valid
    }

    /// The charge limit must lie in `40..=100`.
    pub fn validate_charge_limit(&self, percent: u8) -> (v: ValidationResult)
        ensures
            40 <= percent <= 100 ==> v == ValidationResult::Valid,
            !(40 <= percent <= 100) ==> (v matches ValidationResult::Invalid(m) && m@
                == "лимит зарядки вне диапазона [40, 100]"@),
    {
        if 40 <= percent && percent <= 100 {
            ValidationResult::Valid
        } else {
            ValidationResult::invalid("лимит зарядки вне диапазона [40, 100]")
        }
    }

    /// Set the charge limit after validation; the bounds stay.
    pub fn set_charge_limit(&mut self, percent: u8) -> (r: Result<ApplyResult, ProviderError>)
        requires
            old(self).state.ops < u64::MAX,
        ensures
            !(40 <= percent <= 100) ==> (r matches Err(x) && x@ == ProviderErrorView::InvalidRequest(
                "лимит зарядки вне диапазона [40, 100]"@,
            ) && final(self).state == old(self).state),
            40 <= percent <= 100 ==> match mode_error(old(self).state.error_mode) {
                Some(e) => r matches Err(x) && x@ == e && final(self).state == old(self).state,
                None => {
                    &&& r == Ok::<ApplyResult, ProviderError>(ApplyResult::Applied)
                    &&& final(self).state == (MockState {
                        ops: (old(self).state.ops + 1) as u64,
                        charge_limit: final(self).state.charge_limit,
                        ..old(self).state
                    })
                    &&& final(self).state.charge_limit.enabled
                    &&& final(self).state.charge_limit.percent matches Some(p) && p@ == percent
                    &&& final(self).state.charge_limit.bounds == old(self).state.charge_limit.bounds
                },
            },
    {
        match self.validate_charge_limit(percent).into_result() {
            Err(e) => {
                return Err(e);
            },
            Ok(()) => {},
        }
        match self.begin_mutation() {
            Err(e) => {
                return Err(e);
            },
            Ok(()) => {},
        }
        let p = match Percent::new(percent) {
            Ok(p) => p,
            Err(_) => {
                assert(false);
                return Err(MockStateError::Unsupported.to_provider());
            },
        };
        self.state.charge_limit = ChargeLimit { enabled: true, percent: Some(p), bounds: self.state.charge_limit.bounds };
        Ok(ApplyResult::Applied)
    }

    /// What a GPU mode needs before it applies.
    pub fn requirement_for(&self, mode: GpuMode) -> (r: ActionRequirement)
        ensures
            r == requirement_of(mode),
    {
        match mode {
            GpuMode::Ultimate => ActionRequirement::Reboot,
            GpuMode::Eco => ActionRequirement::Logout,
            _ => ActionRequirement::NotRequired,
        }
    }

    /// Accept a GPU mode request (every mode is valid).
    pub fn validate_mode(&self, mode: GpuMode) -> (v: ValidationResult)
        ensures
            v == ValidationResult::Valid,
    {
        ValidationResult::Valid
    }

    /// Request a GPU mode: see [`gpu_mode_post`]; under an error mode
    /// nothing changes.
    pub fn set_mode(&mut self, mode: GpuMode, confirmed: bool) -> (r: Result<ApplyResult, ProviderError>)
        requires
            old(self).state.ops < u64::MAX,
        ensures
            set_mode_outcome(old(self).state, final(self).state, mode, r),
    {
        match self.begin_mutation() {
            Err(e) => {
                return Err(e);
            },
            Ok(()) => {},
        }
        let req = self.requirement_for(mode);
        self.state.gpu_mode = mode;
        if req != ActionRequirement::NotRequired {
            if mode == GpuMode::Ultimate {
                let already_pending = match &self.state.pending_action {
                    Some(a) => str_eq(a.target.as_str(), "gpu_mux: ultimate"),
                    None => false,
                };
                if !already_pending {
                    self.state.pending_action = Some(
                        PendingAction {
                            id: "mock-mux".to_owned(),
                            target: "gpu_mux: ultimate".to_owned(),
                            requirement: ActionRequirement::Reboot,
                            cancelable: true,
                            created_by: "mock".to_owned(),
                        },
                    );
                }
            }
            Ok(ApplyResult::Pending { requirement: req })
        } else {
            match mode {
                GpuMode::Standard => {
                    self.state.access_policy = GpuAccessPolicy::Unblocked;
                    self.state.mux = GpuMuxState::Integrated;
                },
                GpuMode::Optimized => {
                    self.state.access_policy = GpuAccessPolicy::Blocked;
                    self.state.mux = GpuMuxState::Integrated;
                },
                _ => {},
            }
            Ok(ApplyResult::Applied)
        }
    }

    /// The requested GPU mode (a counted read).
    pub fn requested_mode(&mut self) -> (r: Result<GpuMode, ProviderError>)
        requires
            old(self).state.ops < u64::MAX,
        ensures
            final(self).state == (MockState { ops: (old(self).state.ops + 1) as u64, ..old(self).state }),
            match mode_error(old(self).state.error_mode) {
                None => r == Ok::<GpuMode, ProviderError>(old(self).state.gpu_mode),
                Some(e) => r matches Err(x) && x@ == e,
            },
    {
        match self.begin_read() {
            Ok(()) => Ok(self.state.gpu_mode),
            Err(e) => Err(e),
        }
    }

    /// The applied MUX state (a counted read).
    pub fn mux_state(&mut self) -> (r: Result<GpuMuxState, ProviderError>)
        requires
            old(self).state.ops < u64::MAX,
        ensures
            final(self).state == (MockState { ops: (old(self).state.ops + 1) as u64, ..old(self).state }),
            match mode_error(old(self).state.error_mode) {
                None => r == Ok::<GpuMuxState, ProviderError>(old(self).state.mux),
                Some(e) => r matches Err(x) && x@ == e,
            },
    {
        match self.begin_read() {
            Ok(()) => Ok(self.state.mux),
            Err(e) => Err(e),
        }
    }

    /// The applied access policy (a counted read).
    pub fn access_policy(&mut self) -> (r: Result<GpuAccessPolicy, ProviderError>)
        requires
            old(self).state.ops < u64::MAX,
        ensures
            final(self).state == (MockState { ops: (old(self).state.ops + 1) as u64, ..old(self).state }),
            match mode_error(old(self).state.error_mode) {
                None => r == Ok::<GpuAccessPolicy, ProviderError>(old(self).state.access_policy),
                Some(e) => r matches Err(x) && x@ == e,
            },
    {
        match self.begin_read() {
            Ok(()) => Ok(self.state.access_policy),
            Err(e) => Err(e),
        }
    }

    /// The dGPU power state (a counted read).
    pub fn power_state(&mut self) -> (r: Result<GpuPowerState, ProviderError>)
        requires
            old(self).state.ops < u64::MAX,
        ensures
            final(self).state == (MockState { ops: (old(self).state.ops + 1) as u64, ..old(self).state }),
            match mode_error(old(self).state.error_mode) {
                None => r == Ok::<GpuPowerState, ProviderError>(old(self).state.gpu_power_state),
                Some(e) => r matches Err(x) && x@ == e,
            },
    {
        match self.begin_read() {
            Ok(()) => Ok(self.state.gpu_power_state),
            Err(e) => Err(e),
        }
    }

    /// The fan ids, in order (a counted read).
    pub fn fan_ids(&mut self) -> (r: Result<Vec<FanId>, ProviderError>)
        requires
            old(self).state.ops < u64::MAX,
        ensures
            final(self).state == (MockState { ops: (old(self).state.ops + 1) as u64, ..old(self).state }),
            match mode_error(old(self).state.error_mode) {
                None => r matches Ok(v) && v@.map_values(|f: FanId| f@) == old(self).state.fans@.map_values(
                    |f: (FanId, Rpm)| f.0@,
                ),
                Some(e) => r matches Err(x) && x@ == e,
            },
    {
        match self.begin_read() {
            Err(e) => Err(e),
            Ok(()) => {
                let mut ids: Vec<FanId> = Vec::new();
                let mut i: usize = 0;
                while i < self.state.fans.len()
                    invariant
                        0 <= i <= self.state.fans@.len(),
                        self.state == (MockState { ops: (old(self).state.ops + 1) as u64, ..old(self).state }),
                        ids@.map_values(|f: FanId| f@) == self.state.fans@.take(i as int).map_values(
                            |f: (FanId, Rpm)| f.0@,
                        ),
                    decreases self.state.fans@.len() - i,
                {
                    let ghost before = ids@;
                    let c = clone_fan_id(&self.state.fans[i].0);
                    ids.push(c);
                    assert(ids@.map_values(|f: FanId| f@) =~= before.map_values(|f: FanId| f@).push(c@));
                    assert(self.state.fans@.take(i + 1).map_values(|f: (FanId, Rpm)| f.0@) =~= self.state.fans@.take(
                        i as int,
                    ).map_values(|f: (FanId, Rpm)| f.0@).push(self.state.fans@[i as int].0@));
                    i = i + 1;
                }
                assert(self.state.fans@.take(self.state.fans@.len() as int) =~= self.state.fans@);
                Ok(ids)
            },
        }
    }

    /// A refresh rate must lie in `30..=360` Hz.
    pub fn validate_refresh_rate(&self, hz: RefreshHz) -> (v: ValidationResult)
        ensures
            30 <= hz.0 <= 360 ==> v == ValidationResult::Valid,
            !(30 <= hz.0 <= 360) ==> (v matches ValidationResult::Invalid(m) && m@ == "частота вне [30, 360] Гц"@),
    {
        if 30 <= hz.get() && hz.get() <= 360 {
            ValidationResult::Valid
        } else {
            ValidationResult::invalid("частота вне [30, 360] Гц")
        }
    }

    /// Set the panel refresh rate after validation.
    pub fn set_refresh_rate(&mut self, hz: RefreshHz) -> (r: Result<ApplyResult, ProviderError>)
        requires
            old(self).state.ops < u64::MAX,
        ensures
            !(30 <= hz.0 <= 360) ==> (r matches Err(x) && x@ == ProviderErrorView::InvalidRequest(
                "частота вне [30, 360] Гц"@,
            ) && final(self).state == old(self).state),
            30 <= hz.0 <= 360 ==> match mode_error(old(self).state.error_mode) {
                Some(e) => r matches Err(x) && x@ == e && final(self).state == old(self).state,
                None => r == Ok::<ApplyResult, ProviderError>(ApplyResult::Applied) && final(self).state == (
                MockState {
                    ops: (old(self).state.ops + 1) as u64,
                    display: DisplayMode { current_hz: Some(hz), ..old(self).state.display },
                    ..old(self).state
                }),
            },
    {
        match self.validate_refresh_rate(hz).into_result() {
            Err(e) => {
                return Err(e);
            },
            Ok(()) => {},
        }
        match self.begin_mutation() {
            Err(e) => {
                return Err(e);
            },
            Ok(()) => {},
        }
        self.state.display.current_hz = Some(hz);
        Ok(ApplyResult::Applied)
    }

    /// Power limits must not be negative.
    pub fn validate_power_limit(&self, field: &PowerLimitField, value: i32) -> (v: ValidationResult)
        ensures
            value >= 0 ==> v == ValidationResult::Valid,
            value < 0 ==> (v matches ValidationResult::Invalid(m) && m@ == "значение не может быть отрицательным"@),
    {
        if value < 0 {
            return ValidationResult::invalid("значение не может быть отрицательным");
        }
        ValidationResult::Valid
    }

    /// Set one power limit after validation; an unproven field is unsupported.
    pub fn set_power_limit(&mut self, field: PowerLimitField, value: i32) -> (r: Result<ApplyResult, ProviderError>)
        requires
            old(self).state.ops < u64::MAX,
        ensures
            old(self).state.power_limits.wf() ==> final(self).state.power_limits.wf(),
            value < 0 ==> (r matches Err(x) && x@ == ProviderErrorView::InvalidRequest(
                "значение не может быть отрицательным"@,
            ) && final(self).state == old(self).state),
            value >= 0 ==> match mode_error(old(self).state.error_mode) {
                Some(e) => r matches Err(x) && x@ == e && final(self).state == old(self).state,
                None => {
                    &&& final(self).state == (MockState {
                        ops: (old(self).state.ops + 1) as u64,
                        power_limits: final(self).state.power_limits,
                        ..old(self).state
                    })
                    &&& match limit_of(old(self).state.power_limits.fields@, field) {
                        None => r matches Err(x) && x@ == state_error(MockStateError::Unsupported)
                            && final(self).state.power_limits.fields@ == old(self).state.power_limits.fields@,
                        Some(v) => {
                            &&& r == Ok::<ApplyResult, ProviderError>(ApplyResult::Applied)
                            &&& limit_of(final(self).state.power_limits.fields@, field) == Some(
                                PowerLimitValue { value, ..v },
                            )
                            &&& exists|i: int|
                                0 <= i < old(self).state.power_limits.fields@.len()
                                    && old(self).state.power_limits.fields@[i].0 == field && (forall|j: int|
                                    0 <= j < i ==> old(self).state.power_limits.fields@[j].0 != field) 
                                    && final(self).state.power_limits.fields@
                                    == old(self).state.power_limits.fields@.update(i, (field, PowerLimitValue { value, ..v }))
                        },
                    }
                },
            },
    {
        match self.validate_power_limit(&field, value).into_result() {
            Err(e) => {
                return Err(e);
            },
            Ok(()) => {},
        }
        match self.begin_mutation() {
            Err(e) => {
                return Err(e);
            },
            Ok(()) => {},
        }
        let ghost fields = self.state.power_limits.fields@;
        let mut i: usize = 0;
        assert(fields.skip(0) =~= fields);
        while i < self.state.power_limits.fields.len()
            invariant
                0 <= i <= self.state.power_limits.fields@.len(),
                self.state == (MockState { ops: (old(self).state.ops + 1) as u64, ..old(self).state }),
                mode_error(old(self).state.error_mode) is None,
                old(self).state.ops < u64::MAX,
                value >= 0,
                fields == old(self).state.power_limits.fields@,
                self.state.power_limits.fields@ == fields,
                limit_of(fields, field) == limit_of(fields.skip(i as int), field),
                forall|j: int| 0 <= j < i ==> fields[j].0 != field,
            decreases self.state.power_limits.fields@.len() - i,
        {
            assert(fields.skip(i as int).drop_first() =~= fields.skip(i + 1));
            let (f, v) = self.state.power_limits.fields[i];
            if f == field {
                let nv = PowerLimitValue { value, ..v };
                assert(fields.skip(i as int)[0] == fields[i as int]);
                assert(limit_of(fields, field) == Some(v));
                self.state.power_limits.fields.set(i, (f, nv));
                proof {
                    lemma_limit_of_set(fields, i as int, field, nv);
                    assert(fields[i as int].0 == field);
                    assert(self.state.power_limits.fields@ == fields.update(i as int, (field, nv)));
                }
                return Ok(ApplyResult::Applied);
            }
            i = i + 1;
        }
        Err(MockStateError::Unsupported.to_provider())
    }

    /// Select a lighting mode.
    pub fn set_lighting_mode(&mut self, mode: LightingMode) -> (r: Result<ApplyResult, ProviderError>)
        requires
            old(self).state.ops < u64::MAX,
        ensures
            match mode_error(old(self).state.error_mode) {
                Some(e) => r matches Err(x) && x@ == e && final(self).state == old(self).state,
                None => r == Ok::<ApplyResult, ProviderError>(ApplyResult::Applied) && final(self).state == (
                MockState { lighting: mode, ops: (old(self).state.ops + 1) as u64, ..old(self).state }),
            },
    {
        match self.begin_mutation() {
            Err(e) => {
                return Err(e);
            },
            Ok(()) => {},
        }
        self.state.lighting = mode;
        Ok(ApplyResult::Applied)
    }

    /// Whether the AniMe display is available: with the discrete MUX or a
    /// rainbow lighting mode (a counted read).
    pub fn anime_available(&mut self) -> (r: Result<bool, ProviderError>)
        requires
            old(self).state.ops < u64::MAX,
        ensures
            final(self).state == (MockState { ops: (old(self).state.ops + 1) as u64, ..old(self).state }),
            match mode_error(old(self).state.error_mode) {
                None => r == Ok::<bool, ProviderError>(
                    old(self).state.mux == GpuMuxState::Discrete || old(self).state.lighting == LightingMode::Rainbow,
                ),
                Some(e) => r matches Err(x) && x@ == e,
            },
    {
        match self.begin_read() {
            Ok(()) => Ok(self.state.mux == GpuMuxState::Discrete || self.state.lighting == LightingMode::Rainbow),
            Err(e) => Err(e),
        }
    }

    /// Turn the AniMe display on (rainbow lighting) or off (lighting off).
    pub fn anime_set_enabled(&mut self, enabled: bool) -> (r: Result<ApplyResult, ProviderError>)
        requires
            old(self).state.ops < u64::MAX,
        ensures
            match mode_error(old(self).state.error_mode) {
                Some(e) => r matches Err(x) && x@ == e && final(self).state == old(self).state,
                None => r == Ok::<ApplyResult, ProviderError>(ApplyResult::Applied) && final(self).state == (
                MockState {
                    lighting: if enabled {
                        LightingMode::Rainbow
                    } else {
                        LightingMode::Off
                    },
                    ops: (old(self).state.ops + 1) as u64,
                    ..old(self).state
                }),
            },
    {
        match self.begin_mutation() {
            Err(e) => {
                return Err(e);
            },
            Ok(()) => {},
        }
        self.state.lighting = if enabled {
            LightingMode::Rainbow
        } else {
            LightingMode::Off
        };
        Ok(ApplyResult::Applied)
    }
}

/// Replacing the value of the first entry for `field` is what `limit_of`
/// then finds.
proof fn lemma_limit_of_set(fields: Seq<(PowerLimitField, PowerLimitValue)>, i: int, field: PowerLimitField, v: PowerLimitValue)
    requires
        0 <= i < fields.len(),
        fields[i].0 == field,
        forall|j: int| 0 <= j < i ==> fields[j].0 != field,
    ensures
        limit_of(fields.update(i, (field, v)), field) == Some(v),
    decreases i,
{
    if i > 0 {
        assert(fields.update(i, (field, v)).drop_first() =~= fields.drop_first().update(i - 1, (field, v)));
        lemma_limit_of_set(fields.drop_first(), i - 1, field, v);
    }
}

/// A failed operation under an error mode changes nothing: requesting any
/// GPU mode leaves the whole state, the pending action included, as it was.
pub proof fn lemma_error_mode_preserves_state(old: MockState, new: MockState, mode: GpuMode, r: Result<ApplyResult, ProviderError>)
    requires
        old.error_mode != MockErrorMode::NoError,
        set_mode_outcome(old, new, mode, r),
    ensures
        new == old,
        new.pending_action == old.pending_action,
        r matches Err(x) && Some(x@) == mode_error(old.error_mode),
{
}

/// Requesting Ultimate only records a pending reboot: the applied MUX,
/// access policy and power state stay as they were.
pub proof fn lemma_ultimate_is_pending(old: MockState, new: MockState, r: Result<ApplyResult, ProviderError>)
    requires
        old.error_mode == MockErrorMode::NoError,
        set_mode_outcome(old, new, GpuMode::Ultimate, r),
    ensures
        r == Ok::<ApplyResult, ProviderError>(ApplyResult::Pending { requirement: ActionRequirement::Reboot }),
        new.gpu_mode == GpuMode::Ultimate,
        new.mux == old.mux,
        new.access_policy == old.access_policy,
        new.gpu_power_state == old.gpu_power_state,
        new.pending_action matches Some(a) && a.target@ == "gpu_mux: ultimate"@,
{
    reveal_strlit("gpu_mux: ultimate");
}

/// Requesting Ultimate again is idempotent: the recorded pending action,
/// with its id, is kept.
pub proof fn lemma_repeated_ultimate_is_idempotent(
    s0: MockState,
    s1: MockState,
    s2: MockState,
    r1: Result<ApplyResult, ProviderError>,
    r2: Result<ApplyResult, ProviderError>,
)
    requires
        set_mode_outcome(s0, s1, GpuMode::Ultimate, r1),
        set_mode_outcome(s1, s2, GpuMode::Ultimate, r2),
    ensures
        s2.pending_action == s1.pending_action,
        s2.mux == s1.mux,
        s2.access_policy == s1.access_policy,
        s2.gpu_power_state == s1.gpu_power_state,
{
    reveal_strlit("gpu_mux: ultimate");
}

/// A profile that was set is the one read back: after a successful request
/// for `profile`, reading the current profile gives `profile`.
pub proof fn lemma_profile_round_trip(
    s0: MockState,
    s1: MockState,
    s2: MockState,
    profile: PerformanceProfile,
    r1: Result<ApplyResult, ProviderError>,
    r2: Result<PerformanceProfile, ProviderError>,
)
    requires
        set_profile_outcome(s0, s1, profile, r1),
        r1 is Ok,
        profile_read_outcome(s1, s2, r2),
    ensures
        r2 == Ok::<PerformanceProfile, ProviderError>(profile),
        s2.profile == profile,
{
}

/// A profile that is not offered is refused and the current profile stays.
pub proof fn lemma_unoffered_profile_keeps_current(
    s0: MockState,
    s1: MockState,
    profile: PerformanceProfile,
    r: Result<ApplyResult, ProviderError>,
)
    requires
        set_profile_outcome(s0, s1, profile, r),
        !s0.profiles@.contains(profile),
    ensures
        r is Err,
        s1.profile == s0.profile,
{
}

} // verus!
