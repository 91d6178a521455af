//! Optional read-only LACT telemetry over `/run/lactd.sock`.
//!
//! Only the typed `list_devices` and `device_stats` requests exist. No LACT
//! mutation command, profile activation, service activation or config write
//! is reachable. The socket exchange itself is host I/O; this module holds
//! the decisions: which device is read, how a response status is judged,
//! how a device id yields a PCI identity, and how LACT data is merged with
//! primary telemetry without confusing physical GPUs.
use vstd::prelude::*;

use crate::diagnostics::DiagnosticEntry;

use crate::error::{IoErrorKind, ProviderError, ProviderErrorView};
use crate::telemetry::{
    fan_views, gpu_views, identities_match, now, FanId, FanIdView, FanTelemetry,
    FanTelemetryQuality, FanView, GpuIdentity, GpuIdentityView, GpuRole, GpuTelemetry, GpuView,
    MilliWatt, PowerTelemetry, Rpm, Telemetry, TemperatureC,
};
use crate::gpu::GpuPowerState;
use crate::text::{
    ascii_lower, chars_of, concat2, concat3, decimal, index_of, parse_unsigned, parse_unsigned_at,
    starts_with_str, str_eq, string_of, to_ascii_lowercase, to_decimal, trim, trimmed,
};

verus! {

/// LACT's documented local endpoint.
pub const LACT_SOCKET_PATH: &'static str = "/run/lactd.sock";

/// LACT's documented configuration path, used only as diagnostics metadata.
pub const LACT_CONFIG_PATH: &'static str = "/etc/lact/config.yaml";

/// Read-only LACT provider.
#[derive(Debug, Clone)]
pub struct LactTelemetryProvider {
    socket_path: String,
}

impl LactTelemetryProvider {
    /// Provider diagnostics.
    pub fn diagnostics(&self) -> (v: Vec<DiagnosticEntry>)
        ensures
            v@.len() == 1,
            v@[0].key@ == "provider.lact-telemetry"@,
            v@[0].value@ == "optional read-only lactd JSON socket; config discovery path /etc/lact/config.yaml"@,
    {
        let mut v = Vec::new();
        v.push(DiagnosticEntry::new("provider.lact-telemetry", "optional read-only lactd JSON socket; config discovery path /etc/lact/config.yaml"));
        v
    }

    /// Construct without touching the socket or service.
    pub fn new() -> (p: Self)
        ensures
            p.socket_path_view() == LACT_SOCKET_PATH@,
    {
        LactTelemetryProvider { socket_path: LACT_SOCKET_PATH.to_owned() }
    }

    /// A provider over another socket path (fixtures).
    pub fn with_socket_path(socket_path: &str) -> (p: Self)
        ensures
            p.socket_path_view() == socket_path@,
    {
        LactTelemetryProvider { socket_path: socket_path.to_owned() }
    }

    /// The configured local socket path.
    pub fn socket_path(&self) -> (s: &str)
        ensures
            s@ == self.socket_path_view(),
    {
        self.socket_path.as_str()
    }

    /// Spec view of the socket path.
    pub closed spec fn socket_path_view(&self) -> Seq<char> {
        self.socket_path@
    }
}

impl Default for LactTelemetryProvider {
    fn default() -> (p: Self)
        ensures
            p.socket_path_view() == LACT_SOCKET_PATH@,
    {
        Self::new()
    }
}

/// LACT's device kind.
#[derive(Debug, Clone, Copy, PartialEq, Eq, Structural)]
pub enum LactDeviceType {
    /// A dedicated GPU (LACT's default when the field is absent).
    Dedicated,
    /// An integrated GPU.
    Integrated,
}

/// One entry of LACT's `list_devices` answer.
#[derive(Debug, Clone, PartialEq, Eq)]
pub struct LactDevice {
    /// LACT device id.
    pub id: String,
    /// Device kind.
    pub device_type: LactDeviceType,
}

// ---------------------------------------------------------------------------
// PCI slot of a device id
// ---------------------------------------------------------------------------

/// Index of the last `c` in `s`, or `-1`.
pub open spec fn last_index_of(s: Seq<char>, c: char) -> int
    decreases s.len(),
{
    if s.len() == 0 {
        -1
    } else if s.last() == c {
        s.len() - 1
    } else {
        last_index_of(s.drop_last(), c)
    }
}

/// Whether `c` separates the fields of a PCI slot address.
pub open spec fn is_slot_sep(c: char) -> bool {
    c == ':' || c == '.'
}

/// Index of the first `:` or `.` in `s`, or `-1`.
pub open spec fn first_slot_sep(s: Seq<char>) -> int
    decreases s.len(),
{
    if s.len() == 0 {
        -1
    } else if is_slot_sep(s[0]) {
        0
    } else {
        let r = first_slot_sep(s.drop_first());
        if r < 0 {
            -1
        } else {
            r + 1
        }
    }
}

/// `s.split([':', '.'])`.
pub open spec fn slot_fields(s: Seq<char>) -> Seq<Seq<char>>
    decreases s.len(),
{
    let i = first_slot_sep(s);
    if i < 0 || i >= s.len() {
        seq![s]
    } else {
        seq![s.take(i)] + slot_fields(s.skip(i + 1))
    }
}

/// Whether every field is a hexadecimal `u32`.
pub open spec fn all_hex(fields: Seq<Seq<char>>) -> bool {
    forall|k: int| 0 <= k < fields.len() ==> (#[trigger] parse_unsigned(fields[k], 16, u32::MAX as nat)) is Ok
}

/// The PCI slot address a LACT device id ends with. LACT builds ids as
/// `{vendor}:{device}-{subvendor}:{subdevice}-{pci_slot_name}`; the text after
/// the last `-` is the slot, accepted only when it is exactly four
/// hexadecimal fields separated by `:` or `.`, and reported in lower case.
pub open spec fn pci_slot_of(id: Seq<char>) -> Option<Seq<char>> {
    let d = last_index_of(id, '-');
    if d < 0 {
        None
    } else {
        let slot = id.skip(d + 1);
        if slot_fields(slot).len() == 4 && all_hex(slot_fields(slot)) {
            Some(ascii_lower(slot))
        } else {
            None
        }
    }
}

proof fn lemma_first_slot_sep(s: Seq<char>)
    ensures
        -1 <= first_slot_sep(s) < s.len(),
        first_slot_sep(s) >= 0 ==> is_slot_sep(s[first_slot_sep(s)]),
        forall|k: int|
            0 <= k < s.len() && (first_slot_sep(s) < 0 || k < first_slot_sep(s)) ==> !is_slot_sep(
                #[trigger] s[k],
            ),
    decreases s.len(),
{
    if s.len() > 0 {
        lemma_first_slot_sep(s.drop_first());
        assert forall|k: int|
            0 <= k < s.len() && (first_slot_sep(s) < 0 || k < first_slot_sep(s)) implies !is_slot_sep(
            #[trigger] s[k],
        ) by {
            if k > 0 {
                assert(s[k] == s.drop_first()[k - 1]);
            }
        }
    }
}

proof fn lemma_last_index_of(s: Seq<char>, c: char)
    ensures
        -1 <= last_index_of(s, c) < s.len(),
        last_index_of(s, c) >= 0 ==> s[last_index_of(s, c)] == c,
        forall|k: int| last_index_of(s, c) < k < s.len() ==> #[trigger] s[k] != c,
    decreases s.len(),
{
    if s.len() > 0 && s.last() != c {
        lemma_last_index_of(s.drop_last(), c);
        assert forall|k: int| last_index_of(s, c) < k < s.len() implies #[trigger] s[k] != c by {
            if k < s.len() - 1 {
                assert(s[k] == s.drop_last()[k]);
            }
        }
    }
}

fn find_last(cs: &Vec<char>, c: char) -> (r: Option<usize>)
    ensures
        match r {
            Some(i) => i < cs@.len() && i == last_index_of(cs@, c),
            None => last_index_of(cs@, c) == -1,
        },
{
    proof {
        lemma_last_index_of(cs@, c);
    }
    let mut i = cs.len();
    while i > 0
        invariant
            0 <= i <= cs@.len(),
            -1 <= last_index_of(cs@, c) < cs@.len(),
            last_index_of(cs@, c) >= 0 ==> cs@[last_index_of(cs@, c)] == c,
            forall|k: int| last_index_of(cs@, c) < k < cs@.len() ==> #[trigger] cs@[k] != c,
            last_index_of(cs@, c) < i,
        decreases i,
    {
        if cs[i - 1] == c {
            return Some(i - 1);
        }
        i = i - 1;
    }
    None
}

fn find_slot_sep(cs: &Vec<char>, lo: usize, hi: usize) -> (r: Option<usize>)
    requires
        lo <= hi <= cs@.len(),
    ensures
        match r {
            Some(i) => lo <= i < hi && i - lo == first_slot_sep(cs@.subrange(lo as int, hi as int)),
            None => first_slot_sep(cs@.subrange(lo as int, hi as int)) == -1,
        },
{
    let ghost s = cs@.subrange(lo as int, hi as int);
    proof {
        lemma_first_slot_sep(s);
    }
    let mut i = lo;
    while i < hi
        invariant
            lo <= i <= hi <= cs@.len(),
            s == cs@.subrange(lo as int, hi as int),
            -1 <= first_slot_sep(s) < s.len(),
            first_slot_sep(s) >= 0 ==> is_slot_sep(s[first_slot_sep(s)]),
            forall|k: int|
                0 <= k < s.len() && (first_slot_sep(s) < 0 || k < first_slot_sep(s)) ==> !is_slot_sep(
                    #[trigger] s[k],
                ),
            first_slot_sep(s) < 0 || first_slot_sep(s) >= i - lo,
        decreases hi - i,
    {
        if cs[i] == ':' || cs[i] == '.' {
            assert(is_slot_sep(s[i - lo]));
            return Some(i);
        }
        assert(!is_slot_sep(s[i - lo]));
        i = i + 1;
    }
    None
}

/// Extract the stable PCI slot address (BDF) from a LACT device id.
///
/// Anything that does not parse as `domain:bus:dev.fn` hex is rejected:
/// identity is never guessed from model names or partial data.
pub fn pci_slot_from_device_id(id: &str) -> (r: Option<String>)
    ensures
        match pci_slot_of(id@) {
            Some(s) => r matches Some(v) && v@ == s,
            None => r is None,
        },
{
    let cs = chars_of(id);
    let n = cs.len();
    let d = match find_last(&cs, '-') {
        Some(d) => d,
        None => {
            return None;
        },
    };
    let start = d + 1;
    let ghost slot = cs@.subrange(start as int, n as int);
    assert(id@.skip(d + 1) =~= slot);
    let mut pos = start;
    let mut count: usize = 0;
    let mut ok = true;
    let ghost mut seen: Seq<Seq<char>> = seq![];
    loop
        invariant
            1 <= start <= pos <= n == cs@.len(),
            slot == cs@.subrange(start as int, n as int),
            slot == id@.skip(start as int),
            start - 1 == last_index_of(id@, '-'),
            seen + slot_fields(cs@.subrange(pos as int, n as int)) == slot_fields(slot),
            count == seen.len(),
            count <= pos - start,
            ok == all_hex(seen),
        decreases n - pos,
    {
        let ghost rest = cs@.subrange(pos as int, n as int);
        let end = match find_slot_sep(&cs, pos, n) {
            Some(j) => j,
            None => n,
        };
        let field_ok = parse_unsigned_at(&cs, pos, end, 16, 0xffff_ffff).is_ok();
        let ghost field = cs@.subrange(pos as int, end as int);
        proof {
            if end < n {
                assert(rest.take(end - pos) =~= field);
                assert(rest.skip(end - pos + 1) =~= cs@.subrange(end + 1, n as int));
                assert(seen + slot_fields(rest) =~= seen.push(field) + slot_fields(
                    cs@.subrange(end + 1, n as int),
                ));
            } else {
                assert(rest =~= field);
                assert(seen + slot_fields(rest) =~= seen.push(field));
            }
            assert(all_hex(seen.push(field)) == (ok && field_ok)) by {
                if !field_ok {
                    assert(seen.push(field)[seen.len() as int] == field);
                }
                if ok && field_ok {
                    assert forall|k: int| 0 <= k < seen.push(field).len() implies (
                    #[trigger] parse_unsigned(seen.push(field)[k], 16, u32::MAX as nat)) is Ok by {
                        if k < seen.len() {
                            assert(seen.push(field)[k] == seen[k]);
                        }
                    }
                }
                if !ok {
                    let k = choose|k: int|
                        0 <= k < seen.len() && !((#[trigger] parse_unsigned(
                            seen[k],
                            16,
                            u32::MAX as nat,
                        )) is Ok);
                    assert(seen.push(field)[k] == seen[k]);
                }
            }
            seen = seen.push(field);
        }
        ok = ok && field_ok;
        count = count + 1;
        if end == n {
            assert(seen =~= slot_fields(slot));
            if ok && count == 4 {
                let s = string_of(&cs, start, n);
                return Some(to_ascii_lowercase(s.as_str()));
            }
            assert(!(slot_fields(slot).len() == 4 && all_hex(slot_fields(slot))));
            return None;
        }
        pos = end + 1;
    }
}

// ---------------------------------------------------------------------------
// Device selection and response judgement
// ---------------------------------------------------------------------------

/// Whether a LACT device is a dedicated NVIDIA GPU.
pub open spec fn is_dedicated_nvidia(d: LactDevice) -> bool {
    "10DE:"@.is_prefix_of(d.id@) && d.device_type == LactDeviceType::Dedicated
}

/// The number of dedicated NVIDIA GPUs in `ds`.
pub open spec fn dedicated_nvidia_count(ds: Seq<LactDevice>) -> nat
    decreases ds.len(),
{
    if ds.len() == 0 {
        0
    } else {
        dedicated_nvidia_count(ds.drop_last()) + if is_dedicated_nvidia(ds.last()) {
            1nat
        } else {
            0nat
        }
    }
}

proof fn lemma_count_positive(ds: Seq<LactDevice>, i: int)
    requires
        0 <= i < ds.len(),
        is_dedicated_nvidia(ds[i]),
    ensures
        dedicated_nvidia_count(ds) >= 1,
    decreases ds.len(),
{
    if i < ds.len() - 1 {
        assert(ds.drop_last()[i] == ds[i]);
        lemma_count_positive(ds.drop_last(), i);
    }
}

/// Pick the one dedicated NVIDIA device LACT lists: none is unsupported,
/// more than one is a conflict.
pub fn select_nvidia_device(devices: &Vec<LactDevice>) -> (r: Result<usize, ProviderError>)
    ensures
        dedicated_nvidia_count(devices@) == 0 ==> (r matches Err(e) && e@
            == ProviderErrorView::Unsupported("no dedicated NVIDIA device in LACT"@)),
        dedicated_nvidia_count(devices@) == 1 ==> (r matches Ok(i) && i < devices@.len()
            && is_dedicated_nvidia(devices@[i as int])),
        dedicated_nvidia_count(devices@) >= 2 ==> (r matches Err(e) && e@
            == ProviderErrorView::Conflict("multiple dedicated NVIDIA devices in LACT"@)),
{
    let mut found: Option<usize> = None;
    let mut count: usize = 0;
    let mut i: usize = 0;
    while i < devices.len()
        invariant
            0 <= i <= devices@.len(),
            count == if dedicated_nvidia_count(devices@.take(i as int)) > 2 {
                2
            } else {
                dedicated_nvidia_count(devices@.take(i as int))
            },
            match found {
                Some(k) => k < i && is_dedicated_nvidia(devices@[k as int]),
                None => dedicated_nvidia_count(devices@.take(i as int)) == 0,
            },
        decreases devices@.len() - i,
    {
        let d = &devices[i];
        assert(devices@.take(i + 1).drop_last() =~= devices@.take(i as int));
        let dedicated = match d.device_type {
            LactDeviceType::Dedicated => true,
            LactDeviceType::Integrated => false,
        };
        if starts_with_str(d.id.as_str(), "10DE:") && dedicated {
            if found.is_none() {
                found = Some(i);
            }
            if count < 2 {
                count = count + 1;
            }
        }
        i = i + 1;
    }
    assert(devices@.take(devices@.len() as int) =~= devices@);
    if count == 0 {
        Err(ProviderError::Unsupported("no dedicated NVIDIA device in LACT".to_owned()))
    } else if count == 1 {
        match found {
            Some(k) => Ok(k),
            None => Err(ProviderError::Unsupported("no dedicated NVIDIA device in LACT".to_owned())),
        }
    } else {
        Err(ProviderError::Conflict("multiple dedicated NVIDIA devices in LACT".to_owned()))
    }
}

/// The error of a failed socket connection: a permission failure stays
/// `PermissionDenied`, anything else means the backend is unavailable.
pub fn socket_error(kind: IoErrorKind, message: &str) -> (e: ProviderError)
    ensures
        e@ == if kind == IoErrorKind::PermissionDenied {
            ProviderErrorView::PermissionDenied("LACT socket: "@ + message@)
        } else {
            ProviderErrorView::BackendUnavailable("LACT socket: "@ + message@)
        },
{
    let m = concat2("LACT socket: ", message);
    match kind {
        IoErrorKind::PermissionDenied => ProviderError::PermissionDenied(m),
        _ => ProviderError::BackendUnavailable(m),
    }
}

/// A response line that is blank means the backend answered nothing.
pub fn check_response_line(line: &str) -> (r: Result<(), ProviderError>)
    ensures
        trim(line@).len() == 0 ==> (r matches Err(e) && e@
            == ProviderErrorView::BackendUnavailable("LACT returned an empty response"@)),
        trim(line@).len() > 0 ==> r is Ok,
{
    let t = trimmed(line);
    if t.unicode_len() == 0 {
        Err(ProviderError::BackendUnavailable("LACT returned an empty response".to_owned()))
    } else {
        Ok(())
    }
}

/// Judge a decoded response by its status: `ok` needs data, `error` makes
/// the backend unavailable with its data's JSON text (or a fixed reason), any
/// other status is an internal error.
pub fn judge_response(status: &str, data_text: Option<&str>) -> (r: Result<(), ProviderError>)
    ensures
        status@ == "ok"@ ==> match data_text {
            Some(_) => r is Ok,
            None => r matches Err(e) && e@ == ProviderErrorView::Internal(
                "LACT response omitted data"@,
            ),
        },
        status@ == "error"@ ==> (r matches Err(e) && e@ == ProviderErrorView::BackendUnavailable(
            match data_text {
                Some(d) => d@,
                None => "LACT request failed"@,
            },
        )),
        status@ != "ok"@ && status@ != "error"@ ==> (r matches Err(e) && e@
            == ProviderErrorView::Internal(
            "LACT response has unknown status '"@ + status@ + "'"@,
        )),
{
    proof {
        reveal_strlit("ok");
        reveal_strlit("error");
        assert("ok"@ != "error"@) by {
            assert("ok"@.len() != "error"@.len());
        }
    }
    if str_eq(status, "ok") {
        match data_text {
            Some(_) => Ok(()),
            None => Err(ProviderError::Internal("LACT response omitted data".to_owned())),
        }
    } else if str_eq(status, "error") {
        match data_text {
            Some(d) => Err(ProviderError::BackendUnavailable(d.to_owned())),
            None => Err(ProviderError::BackendUnavailable("LACT request failed".to_owned())),
        }
    } else {
        Err(ProviderError::Internal(concat3("LACT response has unknown status '", status, "'")))
    }
}

/// The vendor field of a LACT id: the text before the first `:`.
pub open spec fn vendor_field(id: Seq<char>) -> Seq<char> {
    let i = index_of(id, ':');
    if i < 0 {
        id
    } else {
        id.take(i)
    }
}

/// The identity of a LACT device: its lower-cased vendor field and the PCI
/// slot address its id ends with.
pub fn identity_from_device_id(id: &str) -> (g: GpuIdentity)
    ensures
        g@.vendor == Some(ascii_lower(vendor_field(id@))),
        g@.pci_id == pci_slot_of(id@),
{
    let cs = chars_of(id);
    proof {
        crate::text::lemma_index_of(id@, ':');
    }
    assert(cs@.subrange(0, cs@.len() as int) =~= cs@);
    let end = match crate::text::find_char(&cs, 0, cs.len(), ':') {
        Some(i) => i,
        None => cs.len(),
    };
    let field = string_of(&cs, 0, end);
    assert(field@ =~= vendor_field(id@));
    let vendor = to_ascii_lowercase(field.as_str());
    GpuIdentity { vendor: Some(vendor), pci_id: pci_slot_from_device_id(id) }
}

// ---------------------------------------------------------------------------
// Device telemetry
// ---------------------------------------------------------------------------

/// The GPU fan reading LACT reports.
pub open spec fn lact_fan(rpm: int) -> FanView {
    FanView {
        source: "lactd"@,
        fan: FanIdView::Gpu,
        label: "lact-gpu"@,
        rpm,
        percent: None,
        quality: FanTelemetryQuality::Partial,
    }
}

/// The telemetry of LACT's NVIDIA device from its already converted GPU
/// temperature and power and its raw fan speed. A fan speed beyond `u16` is
/// an internal error; otherwise the sample carries the GPU temperature, GPU
/// power and fan, an `Unknown` dGPU power state, and one discrete GPU entry
/// with the device identity and the same values.
pub fn lact_device_telemetry(
    identity: GpuIdentity,
    gpu_temp: Option<TemperatureC>,
    gpu_power: Option<MilliWatt>,
    fan_rpm: Option<u32>,
) -> (r: Result<Telemetry, ProviderError>)
    ensures
        match fan_rpm {
            Some(rpm) => rpm > u16::MAX ==> (r matches Err(e) && e@ == ProviderErrorView::Internal(
                "LACT fan RPM out of range: "@ + decimal(rpm as nat),
            )),
            None => true,
        },
        r is Ok <==> (fan_rpm matches Some(rpm) ==> rpm <= u16::MAX),
        r matches Ok(t) ==> {
            &&& t.gpu_temp == gpu_temp
            &&& t.cpu_temp is None
            &&& t.power == (PowerTelemetry { ac: None, battery: None, total: None, gpu: gpu_power })
            &&& fan_views(t.fans@) == match fan_rpm {
                Some(rpm) => seq![lact_fan(rpm as int)],
                None => Seq::<FanView>::empty(),
            }
            &&& t.ac_online is None
            &&& t.battery is None
            &&& t.gpu_power_state == GpuPowerState::Unknown
            &&& t.field_gaps@.len() == 0
            &&& gpu_views(t.gpus@) == seq![
                GpuView {
                    identity: Some(identity@),
                    role: GpuRole::Discrete,
                    source: "lactd-nvidia"@,
                    temperature: crate::telemetry::opt_int(gpu_temp),
                    power: crate::telemetry::opt_int(gpu_power),
                    fan: match fan_rpm {
                        Some(rpm) => Some(lact_fan(rpm as int)),
                        None => None,
                    },
                },
            ]
        },
{
    let mut fans: Vec<FanTelemetry> = Vec::new();
    let mut gpu_fan: Option<FanTelemetry> = None;
    if let Some(rpm) = fan_rpm {
        if rpm > 65535 {
            let d = to_decimal(rpm as u64);
            return Err(ProviderError::Internal(concat2("LACT fan RPM out of range: ", d.as_str())));
        }
        let speed = match Rpm::new(rpm as u16) {
            Ok(v) => v,
            Err(_) => {
                return Err(ProviderError::Internal("LACT fan RPM out of range".to_owned()));
            },
        };
        let fan = FanTelemetry {
            source: "lactd".to_owned(),
            fan: FanId::Gpu,
            label: "lact-gpu".to_owned(),
            rpm: speed,
            percent: None,
            quality: FanTelemetryQuality::Partial,
        };
        gpu_fan = Some(crate::telemetry::clone_fan(&fan));
        fans.push(fan);
    }
    let gpu = GpuTelemetry {
        identity: Some(identity),
        role: GpuRole::Discrete,
        source: "lactd-nvidia".to_owned(),
        temperature: gpu_temp,
        power: gpu_power,
        fan: gpu_fan,
    };
    let mut gpus: Vec<GpuTelemetry> = Vec::new();
    gpus.push(gpu);
    let mut t = Telemetry::empty();
    t.gpu_temp = gpu_temp;
    t.power = PowerTelemetry { ac: None, battery: None, total: None, gpu: gpu_power };
    t.fans = fans;
    t.gpu_power_state = GpuPowerState::Unknown;
    t.gpus = gpus;
    assert(fan_views(t.fans@) =~= match fan_rpm {
        Some(rpm) => seq![lact_fan(rpm as int)],
        None => Seq::<FanView>::empty(),
    });
    assert(gpu_views(t.gpus@) =~= seq![gpu@]);
    Ok(t)
}

// ---------------------------------------------------------------------------
// Merging LACT data into primary telemetry
// ---------------------------------------------------------------------------

/// An optional identity, viewed.
pub open spec fn opt_identity(o: Option<GpuIdentity>) -> Option<GpuIdentityView> {
    match o {
        Some(x) => Some(x@),
        None => None,
    }
}

/// Whether two optional identities name the same physical GPU.
pub open spec fn same_gpu(a: Option<GpuIdentityView>, b: Option<GpuIdentityView>) -> bool {
    a matches Some(x) && b matches Some(y) && identities_match(x, y)
}

/// Index of the first GPU that is the same physical GPU as `id`, or `-1`.
pub open spec fn first_same_gpu(gs: Seq<GpuView>, id: Option<GpuIdentityView>) -> int
    decreases gs.len(),
{
    if gs.len() == 0 {
        -1
    } else {
        let r = first_same_gpu(gs.drop_last(), id);
        if r >= 0 {
            r
        } else if same_gpu(gs.last().identity, id) {
            gs.len() - 1
        } else {
            -1
        }
    }
}

/// Field-local primary precedence: each field of `existing` is kept when
/// present and filled from `candidate` otherwise.
pub open spec fn fill_gpu(existing: GpuView, candidate: GpuView) -> GpuView {
    GpuView {
        temperature: if existing.temperature is Some {
            existing.temperature
        } else {
            candidate.temperature
        },
        power: if existing.power is Some {
            existing.power
        } else {
            candidate.power
        },
        fan: if existing.fan is Some {
            existing.fan
        } else {
            candidate.fan
        },
        ..existing
    }
}

/// Merge one LACT GPU: fill the first entry of the same physical GPU, or
/// append it as a separate GPU.
pub open spec fn merge_gpu(gs: Seq<GpuView>, c: GpuView) -> Seq<GpuView> {
    let i = first_same_gpu(gs, c.identity);
    if 0 <= i < gs.len() {
        gs.update(i, fill_gpu(gs[i], c))
    } else {
        gs.push(c)
    }
}

/// Merge all LACT GPUs, in order.
pub open spec fn merge_gpus(gs: Seq<GpuView>, cs: Seq<GpuView>) -> Seq<GpuView> {
    cs.fold_left(gs, |acc: Seq<GpuView>, c: GpuView| merge_gpu(acc, c))
}

/// Whether a GPU is a discrete GPU with a proven PCI slot.
pub open spec fn proven_discrete(g: GpuView) -> bool {
    g.role == GpuRole::Discrete && (g.identity matches Some(id) && id.pci_id is Some)
}

/// Index of the first proven discrete GPU, or `-1`.
pub open spec fn first_proven_discrete(gs: Seq<GpuView>) -> int
    decreases gs.len(),
{
    if gs.len() == 0 {
        -1
    } else {
        let r = first_proven_discrete(gs.drop_last());
        if r >= 0 {
            r
        } else if proven_discrete(gs.last()) {
            gs.len() - 1
        } else {
            -1
        }
    }
}

proof fn lemma_first_same_gpu(gs: Seq<GpuView>, id: Option<GpuIdentityView>)
    ensures
        -1 <= first_same_gpu(gs, id) < gs.len(),
        first_same_gpu(gs, id) >= 0 ==> same_gpu(gs[first_same_gpu(gs, id)].identity, id),
        first_same_gpu(gs, id) < 0 ==> forall|k: int| 0 <= k < gs.len() ==> !same_gpu(
            #[trigger] gs[k].identity,
            id,
        ),
        forall|k: int|
            0 <= k < first_same_gpu(gs, id) ==> !same_gpu(#[trigger] gs[k].identity, id),
    decreases gs.len(),
{
    if gs.len() > 0 {
        lemma_first_same_gpu(gs.drop_last(), id);
        assert forall|k: int| 0 <= k < gs.len() - 1 implies gs[k] == gs.drop_last()[k] by {}
    }
}

proof fn lemma_first_proven_discrete(gs: Seq<GpuView>)
    ensures
        -1 <= first_proven_discrete(gs) < gs.len(),
        first_proven_discrete(gs) >= 0 ==> proven_discrete(gs[first_proven_discrete(gs)]),
        first_proven_discrete(gs) < 0 ==> forall|k: int| 0 <= k < gs.len() ==> !proven_discrete(
            #[trigger] gs[k],
        ),
        forall|k: int| 0 <= k < first_proven_discrete(gs) ==> !proven_discrete(#[trigger] gs[k]),
    decreases gs.len(),
{
    if gs.len() > 0 {
        lemma_first_proven_discrete(gs.drop_last());
        assert forall|k: int| 0 <= k < gs.len() - 1 implies gs[k] == gs.drop_last()[k] by {}
    }
}

fn find_same_gpu(gs: &Vec<GpuTelemetry>, id: &Option<GpuIdentity>) -> (r: Option<usize>)
    ensures
        match r {
            Some(i) => i < gs@.len() && i == first_same_gpu(
                gpu_views(gs@),
                opt_identity(*id),
            ),
            None => first_same_gpu(
                gpu_views(gs@),
                opt_identity(*id),
            ) == -1,
        },
{
    let ghost idv = opt_identity(*id);
    let ghost vs = gpu_views(gs@);
    proof {
        lemma_first_same_gpu(vs, idv);
    }
    let mut i: usize = 0;
    while i < gs.len()
        invariant
            0 <= i <= gs@.len(),
            vs == gpu_views(gs@),
            idv == opt_identity(*id),
            -1 <= first_same_gpu(vs, idv) < vs.len(),
            first_same_gpu(vs, idv) >= 0 ==> same_gpu(vs[first_same_gpu(vs, idv)].identity, idv),
            first_same_gpu(vs, idv) < 0 ==> forall|k: int|
                0 <= k < vs.len() ==> !same_gpu(#[trigger] vs[k].identity, idv),
            forall|k: int| 0 <= k < first_same_gpu(vs, idv) ==> !same_gpu(#[trigger] vs[k].identity, idv),
            forall|k: int| 0 <= k < i ==> !same_gpu(#[trigger] vs[k].identity, idv),
        decreases gs@.len() - i,
    {
        let hit = match &gs[i].identity {
            Some(a) => match id {
                Some(b) => a.matches(b),
                None => false,
            },
            None => false,
        };
        assert(vs[i as int] == gs@[i as int]@);
        assert(hit == same_gpu(vs[i as int].identity, idv));
        if hit {
            return Some(i);
        }
        i = i + 1;
    }
    None
}

fn find_proven_discrete(gs: &Vec<GpuTelemetry>) -> (r: Option<usize>)
    ensures
        match r {
            Some(i) => i < gs@.len() && i == first_proven_discrete(gpu_views(gs@)),
            None => first_proven_discrete(gpu_views(gs@)) == -1,
        },
{
    let ghost vs = gpu_views(gs@);
    proof {
        lemma_first_proven_discrete(vs);
    }
    let mut i: usize = 0;
    while i < gs.len()
        invariant
            0 <= i <= gs@.len(),
            vs == gpu_views(gs@),
            -1 <= first_proven_discrete(vs) < vs.len(),
            first_proven_discrete(vs) >= 0 ==> proven_discrete(vs[first_proven_discrete(vs)]),
            first_proven_discrete(vs) < 0 ==> forall|k: int|
                0 <= k < vs.len() ==> !proven_discrete(#[trigger] vs[k]),
            forall|k: int| 0 <= k < first_proven_discrete(vs) ==> !proven_discrete(#[trigger] vs[k]),
            forall|k: int| 0 <= k < i ==> !proven_discrete(#[trigger] vs[k]),
        decreases gs@.len() - i,
    {
        let g = &gs[i];
        let hit = match (&g.role, &g.identity) {
            (GpuRole::Discrete, Some(id)) => id.pci_id.is_some(),
            _ => false,
        };
        assert(vs[i as int] == gs@[i as int]@);
        assert(hit == proven_discrete(vs[i as int]));
        if hit {
            return Some(i);
        }
        i = i + 1;
    }
    None
}

fn fill_gpu_exec(existing: &GpuTelemetry, candidate: &GpuTelemetry) -> (g: GpuTelemetry)
    ensures
        g@ == fill_gpu(existing@, candidate@),
{
    let mut g = crate::telemetry::clone_gpu(existing);
    if g.temperature.is_none() {
        g.temperature = candidate.temperature;
    }
    if g.power.is_none() {
        g.power = candidate.power;
    }
    if g.fan.is_none() {
        g.fan = crate::telemetry::clone_opt_fan(&candidate.fan);
    }
    g
}

/// Merge the LACT GPUs into the primary list.
fn merge_gpu_list(gpus: &mut Vec<GpuTelemetry>, candidates: &Vec<GpuTelemetry>)
    ensures
        gpu_views(final(gpus)@) == merge_gpus(gpu_views(old(gpus)@), gpu_views(candidates@)),
{
    let ghost g0 = gpu_views(gpus@);
    let ghost cs = gpu_views(candidates@);
    let mut j: usize = 0;
    while j < candidates.len()
        invariant
            0 <= j <= candidates@.len(),
            cs == gpu_views(candidates@),
            gpu_views(gpus@) == merge_gpus(g0, cs.take(j as int)),
        decreases candidates@.len() - j,
    {
        let c = &candidates[j];
        let ghost before = gpu_views(gpus@);
        assert(cs.take(j + 1).drop_last() =~= cs.take(j as int));
        assert(cs.take(j + 1).last() == c@);
        match find_same_gpu(gpus, &c.identity) {
            Some(i) => {
                let filled = fill_gpu_exec(&gpus[i], c);
                gpus.set(i, filled);
                assert(gpu_views(gpus@) =~= before.update(i as int, fill_gpu(before[i as int], c@)));
            },
            None => {
                gpus.push(crate::telemetry::clone_gpu(c));
                assert(gpu_views(gpus@) =~= before.push(c@));
            },
        }
        j = j + 1;
    }
    assert(cs.take(cs.len() as int) =~= cs);
}

/// Whether some fan reading is the GPU fan.
pub open spec fn has_gpu_fan(fans: Seq<FanView>) -> bool {
    exists|i: int| 0 <= i < fans.len() && (#[trigger] fans[i]).fan == FanIdView::Gpu
}

fn has_gpu_fan_exec(fans: &Vec<FanTelemetry>) -> (b: bool)
    ensures
        b == has_gpu_fan(fan_views(fans@)),
{
    let mut i: usize = 0;
    while i < fans.len()
        invariant
            0 <= i <= fans@.len(),
            forall|k: int| 0 <= k < i ==> (#[trigger] fan_views(fans@)[k]).fan != FanIdView::Gpu,
        decreases fans@.len() - i,
    {
        if matches!(fans[i].fan, FanId::Gpu) {
            assert(fan_views(fans@)[i as int].fan == FanIdView::Gpu);
            return true;
        }
        assert(fan_views(fans@)[i as int].fan != FanIdView::Gpu);
        i = i + 1;
    }
    false
}

/// Merge optional LACT data without confusing physical GPUs.
///
/// A complete matching PCI identity permits field-local primary precedence.
/// Different identities, and any missing identity, remain separate entries and
/// are never treated as a numeric conflict. Legacy flat GPU fields are only
/// projected from a proven discrete GPU; otherwise they stay unavailable.
/// When one source failed the other is returned unchanged; when both failed,
/// the primary error.
pub fn merge_telemetry(
    primary: Result<Telemetry, ProviderError>,
    lact: Result<Telemetry, ProviderError>,
) -> (r: Result<Telemetry, ProviderError>)
    ensures
        match (primary, lact) {
            (Ok(p), Ok(l)) => r matches Ok(m) && {
                let gs = merge_gpus(gpu_views(p.gpus@), gpu_views(l.gpus@));
                let d = first_proven_discrete(gs);
                &&& gpu_views(m.gpus@) == gs
                &&& crate::telemetry::opt_int(m.gpu_temp) == if d >= 0 {
                    gs[d].temperature
                } else {
                    None
                }
                &&& crate::telemetry::opt_int(m.power.gpu) == if d >= 0 {
                    gs[d].power
                } else {
                    None
                }
                &&& fan_views(m.fans@) == if d >= 0 && gs[d].fan is Some && !has_gpu_fan(
                    fan_views(p.fans@),
                ) {
                    fan_views(p.fans@).push(gs[d].fan.unwrap())
                } else {
                    fan_views(p.fans@)
                }
                &&& m.cpu_temp == p.cpu_temp
                &&& m.power.ac == p.power.ac
                &&& m.power.battery == p.power.battery
                &&& m.power.total == p.power.total
                &&& m.ac_online == p.ac_online
                &&& m.battery == p.battery
                &&& m.gpu_power_state == p.gpu_power_state
                &&& m.field_gaps == p.field_gaps
                &&& m.ts == p.ts
            },
            (Ok(p), Err(_)) => r == Ok::<Telemetry, ProviderError>(p),
            (Err(_), Ok(l)) => r == Ok::<Telemetry, ProviderError>(l),
            (Err(e), Err(_)) => r == Err::<Telemetry, ProviderError>(e),
        },
{
    match (primary, lact) {
        (Ok(mut p), Ok(l)) => {
            let ghost p0 = p;
            merge_gpu_list(&mut p.gpus, &l.gpus);
            let ghost gs = gpu_views(p.gpus@);
            let d = find_proven_discrete(&p.gpus);
            match d {
                Some(i) => {
                    let temperature = p.gpus[i].temperature;
                    let power = p.gpus[i].power;
                    p.gpu_temp = temperature;
                    p.power.gpu = power;
                    let fan = crate::telemetry::clone_opt_fan(&p.gpus[i].fan);
                    if let Some(f) = fan {
                        if !has_gpu_fan_exec(&p.fans) {
                            let ghost before = fan_views(p.fans@);
                            p.fans.push(f);
                            assert(fan_views(p.fans@) =~= before.push(gs[i as int].fan.unwrap()));
                        }
                    }
                },
                None => {
                    p.gpu_temp = None;
                    p.power.gpu = None;
                },
            }
            Ok(p)
        },
        (Ok(p), Err(_)) => Ok(p),
        (Err(_), Ok(l)) => Ok(l),
        (Err(e), Err(_)) => Err(e),
    }
}

/// Merging keeps every primary GPU at its place, with its identity, role and
/// source, and with every field it already had: LACT only fills gaps or
/// appends GPUs.
pub proof fn lemma_merge_keeps_primary(gs: Seq<GpuView>, cs: Seq<GpuView>)
    ensures
        merge_gpus(gs, cs).len() >= gs.len(),
        forall|k: int|
            0 <= k < gs.len() ==> {
                let m = #[trigger] merge_gpus(gs, cs)[k];
                &&& m.identity == gs[k].identity
                &&& m.role == gs[k].role
                &&& m.source == gs[k].source
                &&& gs[k].temperature is Some ==> m.temperature == gs[k].temperature
                &&& gs[k].power is Some ==> m.power == gs[k].power
                &&& gs[k].fan is Some ==> m.fan == gs[k].fan
            },
    decreases cs.len(),
{
    if cs.len() > 0 {
        lemma_merge_keeps_primary(gs, cs.drop_last());
        let prev = merge_gpus(gs, cs.drop_last());
        let c = cs.last();
        lemma_first_same_gpu(prev, c.identity);
        assert(merge_gpus(gs, cs) == merge_gpu(prev, c));
        assert forall|k: int| 0 <= k < gs.len() implies {
            let m = #[trigger] merge_gpus(gs, cs)[k];
            &&& m.identity == gs[k].identity
            &&& m.role == gs[k].role
            &&& m.source == gs[k].source
            &&& gs[k].temperature is Some ==> m.temperature == gs[k].temperature
            &&& gs[k].power is Some ==> m.power == gs[k].power
            &&& gs[k].fan is Some ==> m.fan == gs[k].fan
        } by {
            assert(prev[k] == merge_gpus(gs, cs.drop_last())[k]);
        }
    }
}

/// LACT GPUs without a PCI slot address never merge with anything: they are
/// appended as separate GPUs.
pub proof fn lemma_unidentified_gpus_stay_separate(gs: Seq<GpuView>, cs: Seq<GpuView>)
    requires
        forall|k: int|
            0 <= k < cs.len() ==> !((#[trigger] cs[k]).identity matches Some(id) && id.pci_id is Some),
    ensures
        merge_gpus(gs, cs) == gs + cs,
    decreases cs.len(),
{
    if cs.len() > 0 {
        lemma_unidentified_gpus_stay_separate(gs, cs.drop_last());
        let prev = merge_gpus(gs, cs.drop_last());
        let c = cs.last();
        lemma_first_same_gpu(prev, c.identity);
        assert(first_same_gpu(prev, c.identity) < 0);
        assert(gs + cs =~= (gs + cs.drop_last()).push(c));
    } else {
        assert(gs + cs =~= gs);
    }
}

} // verus!
