//! Read-only ASUS Armoury product-GPU state decoding.
//!
//! The product mode is the joint meaning of two firmware attributes,
//! `dgpu_disable` and `gpu_mux_mode`. Decoding is read-only: it never claims
//! that a value can be written or would apply without a reboot.
use vstd::prelude::*;

use crate::error::{IoErrorKind, IoFailure, ProviderError, ProviderErrorView};
use crate::paths::{below, path_below};
use crate::text::{concat2, decimal, parse_unsigned, parse_unsigned_at, chars_of, to_decimal, trim, trimmed};

verus! {

/// The asusd D-Bus service.
pub const ASUSD_SERVICE: &'static str = "xyz.ljones.Asusd";

/// The asusd object path of the ASUS Armoury attributes.
pub const ASUS_ARMOURY_PATH: &'static str = "/xyz/ljones/asus_armoury";

/// Fixed kernel firmware-attributes path of `dgpu_disable`.
pub const ASUS_ARMOURY_DGPU_DISABLE_PATH: &'static str = "class/firmware-attributes/asus-armoury/attributes/dgpu_disable/current_value";

/// Fixed kernel firmware-attributes path of the physical MUX mode.
pub const ASUS_ARMOURY_GPU_MUX_MODE_PATH: &'static str = "class/firmware-attributes/asus-armoury/attributes/gpu_mux_mode/current_value";

/// Product-level GPU state reported by the ASUS Armoury attribute pair.
#[derive(Debug, Clone, Copy, PartialEq, Eq, Structural)]
pub enum AsusGpuMode {
    /// Dynamic/Optimus mode: dGPU enabled, MUX integrated.
    Hybrid,
    /// iGPU-only mode: dGPU disabled, MUX integrated.
    Integrated,
    /// dGPU-only/MUX mode: dGPU enabled, MUX discrete.
    Ultimate,
    /// One or more required values were not readable.
    Incomplete,
    /// Values were readable but do not form a known state.
    Unknown {
        /// Raw `dgpu_disable` value.
        dgpu_disable: u32,
        /// Raw `gpu_mux_mode` value.
        gpu_mux_mode: u32,
    },
    /// The pair describes an impossible/contradictory state.
    Conflicted {
        /// Raw `dgpu_disable` value.
        dgpu_disable: u32,
        /// Raw `gpu_mux_mode` value.
        gpu_mux_mode: u32,
    },
}

/// The product mode of an attribute pair: `(0, 1)` hybrid, `(1, 1)`
/// integrated, `(0, 0)` ultimate, `(1, 0)` a contradiction (the dGPU is off
/// while the MUX routes the display to it), any other pair unknown with its
/// raw values, and a missing value incomplete.
pub open spec fn asus_gpu_mode(dgpu_disable: Option<u32>, gpu_mux_mode: Option<u32>) -> AsusGpuMode {
    match (dgpu_disable, gpu_mux_mode) {
        (Some(d), Some(m)) => if d == 0 && m == 1 {
            AsusGpuMode::Hybrid
        } else if d == 1 && m == 1 {
            AsusGpuMode::Integrated
        } else if d == 0 && m == 0 {
            AsusGpuMode::Ultimate
        } else if d == 1 && m == 0 {
            AsusGpuMode::Conflicted { dgpu_disable: d, gpu_mux_mode: m }
        } else {
            AsusGpuMode::Unknown { dgpu_disable: d, gpu_mux_mode: m }
        },
        _ => AsusGpuMode::Incomplete,
    }
}

/// Decode the two ASUS Armoury firmware attributes used by ROG Control Center.
///
/// This is a read-only interpretation. It does not imply that the attributes
/// can be safely written or that a change would apply without reboot.
pub fn decode_asus_gpu_mode(dgpu_disable: Option<u32>, gpu_mux_mode: Option<u32>) -> (m: AsusGpuMode)
    ensures
        m == asus_gpu_mode(dgpu_disable, gpu_mux_mode),
{
    let (d, x) = match (dgpu_disable, gpu_mux_mode) {
        (Some(d), Some(x)) => (d, x),
        _ => {
            return AsusGpuMode::Incomplete;
        },
    };
    if d == 0 && x == 1 {
        AsusGpuMode::Hybrid
    } else if d == 1 && x == 1 {
        AsusGpuMode::Integrated
    } else if d == 0 && x == 0 {
        AsusGpuMode::Ultimate
    } else if d == 1 && x == 0 {
        AsusGpuMode::Conflicted { dgpu_disable: d, gpu_mux_mode: x }
    } else {
        AsusGpuMode::Unknown { dgpu_disable: d, gpu_mux_mode: x }
    }
}

/// Read-only current and deferred ASUS GPU attribute state.
#[derive(Debug, Clone, Copy, PartialEq, Eq, Structural)]
pub struct AsusGpuModeSnapshot {
    /// Current firmware `dgpu_disable` value.
    pub current_dgpu_disable: u32,
    /// Current firmware `gpu_mux_mode` value.
    pub current_gpu_mux_mode: u32,
    /// Deferred `dgpu_disable` value, if queued by asusd.
    pub queued_dgpu_disable: Option<u32>,
    /// Deferred `gpu_mux_mode` value, if queued by asusd.
    pub queued_gpu_mux_mode: Option<u32>,
    /// Decoded current product mode.
    pub current_mode: AsusGpuMode,
    /// Decoded deferred product mode, if both values are queued.
    pub queued_mode: Option<AsusGpuMode>,
    /// Whether a complete deferred pair differs from current firmware state.
    pub reboot_required: bool,
}

impl AsusGpuModeSnapshot {
    /// Build a snapshot from raw current and deferred attribute values.
    ///
    /// The deferred mode exists only for a complete queued pair; a reboot is
    /// required exactly when such a pair differs from the current values.
    /// Missing current values are recorded as 0 and decode as incomplete.
    pub fn from_values(
        current_dgpu_disable: Option<u32>,
        current_gpu_mux_mode: Option<u32>,
        queued_dgpu_disable: Option<u32>,
        queued_gpu_mux_mode: Option<u32>,
    ) -> (s: Self)
        ensures
            s.current_dgpu_disable == match current_dgpu_disable {
                Some(v) => v,
                None => 0,
            },
            s.current_gpu_mux_mode == match current_gpu_mux_mode {
                Some(v) => v,
                None => 0,
            },
            s.queued_dgpu_disable == queued_dgpu_disable,
            s.queued_gpu_mux_mode == queued_gpu_mux_mode,
            s.current_mode == asus_gpu_mode(current_dgpu_disable, current_gpu_mux_mode),
            s.queued_mode == if queued_dgpu_disable is Some && queued_gpu_mux_mode is Some {
                Some(asus_gpu_mode(queued_dgpu_disable, queued_gpu_mux_mode))
            } else {
                None
            },
            s.reboot_required == (queued_dgpu_disable is Some && queued_gpu_mux_mode is Some && (
            queued_dgpu_disable != current_dgpu_disable || queued_gpu_mux_mode
                != current_gpu_mux_mode)),
    {
        let current_mode = decode_asus_gpu_mode(current_dgpu_disable, current_gpu_mux_mode);
        let queued_mode = match (queued_dgpu_disable, queued_gpu_mux_mode) {
            (Some(d), Some(m)) => Some(decode_asus_gpu_mode(Some(d), Some(m))),
            _ => None,
        };
        let dgpu_differs = match (queued_dgpu_disable, current_dgpu_disable) {
            (Some(a), Some(b)) => a != b,
            (None, None) => false,
            _ => true,
        };
        let mux_differs = match (queued_gpu_mux_mode, current_gpu_mux_mode) {
            (Some(a), Some(b)) => a != b,
            (None, None) => false,
            _ => true,
        };
        let reboot_required = queued_mode.is_some() && (dgpu_differs || mux_differs);
        AsusGpuModeSnapshot {
            current_dgpu_disable: match current_dgpu_disable {
                Some(v) => v,
                None => 0,
            },
            current_gpu_mux_mode: match current_gpu_mux_mode {
                Some(v) => v,
                None => 0,
            },
            queued_dgpu_disable,
            queued_gpu_mux_mode,
            current_mode,
            queued_mode,
            reboot_required,
        }
    }

    /// Whether a complete deferred pair exists and differs from current state.
    pub fn reboot_required(&self) -> (b: bool)
        ensures
            b == self.reboot_required,
    {
        self.reboot_required
    }
}

/// The asusd object path of an attribute.
pub fn asusd_attribute_path(attribute: &str) -> (p: String)
    ensures
        p@ == ASUS_ARMOURY_PATH@ + "/"@ + attribute@,
{
    crate::text::concat3(ASUS_ARMOURY_PATH, "/", attribute)
}

/// The current and queued values of an asusd attribute as the firmware
/// values they stand for: a negative current value is an internal error, a
/// negative queued value means nothing is queued.
pub fn asusd_attribute_values(current: i32, queued: i32) -> (r: Result<(u32, Option<u32>), ProviderError>)
    ensures
        current < 0 ==> (r matches Err(e) && e@ == ProviderErrorView::Internal(
            "negative ASUS GPU value: -"@ + decimal((0 - current) as nat),
        )),
        current >= 0 ==> r == Ok::<(u32, Option<u32>), ProviderError>(
            (
                current as u32,
                if queued < 0 {
                    None
                } else {
                    Some(queued as u32)
                },
            ),
        ),
{
    if current < 0 {
        let magnitude: u64 = (0i64 - current as i64) as u64;
        let d = to_decimal(magnitude);
        return Err(ProviderError::Internal(concat2("negative ASUS GPU value: -", d.as_str())));
    }
    let q = if queued < 0 {
        None
    } else {
        Some(queued as u32)
    };
    Ok((current as u32, q))
}

/// Read-only provider for the ASUS Armoury product-GPU state pair.
#[derive(Debug, Clone)]
pub struct AsusArmouryGpuModeProvider {
    /// The sysfs root.
    pub sysfs_root: String,
}

/// The value of an attribute file: absent is unsupported, a refused read a
/// permission failure, other failures I/O errors, and the trimmed content
/// must be an unsigned decimal.
pub open spec fn attribute_value(path: Seq<char>, r: Result<String, IoFailure>) -> Result<
    u32,
    ProviderErrorView,
> {
    match r {
        Err(f) => if f.kind == IoErrorKind::NotFound {
            Err(ProviderErrorView::Unsupported("ASUS GPU attribute absent: "@ + path))
        } else if f.kind == IoErrorKind::PermissionDenied {
            Err(ProviderErrorView::PermissionDenied("ASUS GPU attribute read denied: "@ + path))
        } else {
            Err(ProviderErrorView::Io(f@))
        },
        Ok(raw) => match parse_unsigned(trim(raw@), 10, u32::MAX as nat) {
            Ok(v) => Ok(v as u32),
            Err(_) => Err(ProviderErrorView::Internal("ASUS GPU attribute is malformed: "@ + path)),
        },
    }
}

/// Judge one attribute file.
pub fn read_attribute(path: &str, r: &Result<String, IoFailure>) -> (v: Result<u32, ProviderError>)
    ensures
        match attribute_value(path@, *r) {
            Ok(x) => v == Ok::<u32, ProviderError>(x),
            Err(e) => v matches Err(err) && err@ == e,
        },
{
    match r {
        Err(f) => match f.kind {
            IoErrorKind::NotFound => Err(
                ProviderError::Unsupported(concat2("ASUS GPU attribute absent: ", path)),
            ),
            IoErrorKind::PermissionDenied => Err(
                ProviderError::PermissionDenied(concat2("ASUS GPU attribute read denied: ", path)),
            ),
            _ => Err(ProviderError::Io(f.clone_failure())),
        },
        Ok(raw) => {
            let t = trimmed(raw.as_str());
            let cs = chars_of(t.as_str());
            assert(cs@.subrange(0, cs@.len() as int) =~= cs@);
            match parse_unsigned_at(&cs, 0, cs.len(), 10, 0xffff_ffff) {
                Ok(v) => Ok(v as u32),
                Err(_) => Err(ProviderError::Internal(concat2("ASUS GPU attribute is malformed: ", path))),
            }
        },
    }
}

impl AsusArmouryGpuModeProvider {
    /// Construct without performing I/O.
    pub fn new(sysfs_root: &str) -> (p: Self)
        ensures
            p.sysfs_root@ == sysfs_root@,
    {
        AsusArmouryGpuModeProvider { sysfs_root: sysfs_root.to_owned() }
    }

    /// The `dgpu_disable` file.
    pub fn dgpu_disable_path(&self) -> (p: String)
        ensures
            p@ == below(self.sysfs_root@, ASUS_ARMOURY_DGPU_DISABLE_PATH@),
    {
        path_below(self.sysfs_root.as_str(), ASUS_ARMOURY_DGPU_DISABLE_PATH)
    }

    /// The `gpu_mux_mode` file.
    pub fn gpu_mux_mode_path(&self) -> (p: String)
        ensures
            p@ == below(self.sysfs_root@, ASUS_ARMOURY_GPU_MUX_MODE_PATH@),
    {
        path_below(self.sysfs_root.as_str(), ASUS_ARMOURY_GPU_MUX_MODE_PATH)
    }

    /// Judge both attribute files and decode their joint product state; the
    /// `dgpu_disable` file is judged first.
    pub fn read_mode(
        &self,
        dgpu_disable: &Result<String, IoFailure>,
        gpu_mux_mode: &Result<String, IoFailure>,
    ) -> (r: Result<AsusGpuMode, ProviderError>)
        ensures
            match (
                attribute_value(below(self.sysfs_root@, ASUS_ARMOURY_DGPU_DISABLE_PATH@), *dgpu_disable),
                attribute_value(below(self.sysfs_root@, ASUS_ARMOURY_GPU_MUX_MODE_PATH@), *gpu_mux_mode),
            ) {
                (Err(e), _) => r matches Err(err) && err@ == e,
                (Ok(_), Err(e)) => r matches Err(err) && err@ == e,
                (Ok(d), Ok(m)) => r == Ok::<AsusGpuMode, ProviderError>(asus_gpu_mode(Some(d), Some(m))),
            },
    {
        let p1 = self.dgpu_disable_path();
        let d = match read_attribute(p1.as_str(), dgpu_disable) {
            Ok(v) => v,
            Err(e) => {
                return Err(e);
            },
        };
        let p2 = self.gpu_mux_mode_path();
        let m = match read_attribute(p2.as_str(), gpu_mux_mode) {
            Ok(v) => v,
            Err(e) => {
                return Err(e);
            },
        };
        Ok(decode_asus_gpu_mode(Some(d), Some(m)))
    }
}

impl Default for AsusArmouryGpuModeProvider {
    fn default() -> (p: Self)
        ensures
            p.sysfs_root@ == "/sys"@,
    {
        AsusArmouryGpuModeProvider { sysfs_root: "/sys".to_owned() }
    }
}

} // verus!
