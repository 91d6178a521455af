//! Read-only NVIDIA dGPU runtime power from kernel sysfs, without supergfxd.
//!
//! The host lists `<sysfs>/class/drm`, reads each primary card's
//! `device/vendor`, and for the first NVIDIA card (`0x10de`) its
//! `device/power/runtime_status`, falling back to `device/power_state`.
use vstd::prelude::*;
use vstd::string::*;

use crate::diagnostics::DiagnosticEntry;
use crate::error::{IoErrorKind, IoFailure, ProviderError, ProviderErrorView};
use crate::gpu::GpuPowerState;
use crate::paths::{join, join_path};
use crate::text::{contains_seq, contains_str, starts_with_str, str_eq, trim, trimmed};

verus! {

/// A `/sys/class/drm` entry and its `device/vendor` file.
#[derive(Debug, PartialEq, Eq)]
pub struct GpuPowerCardEntry {
    /// Entry name.
    pub name: String,
    /// Content of `<entry>/device/vendor`, or the failure to read it.
    pub vendor: Result<String, IoFailure>,
}

/// A file that may be absent: its trimmed content, `None` when it does not
/// exist, or the I/O error of any other failure.
pub open spec fn trimmed_file(r: Result<String, IoFailure>) -> Result<Option<Seq<char>>, ProviderErrorView> {
    match r {
        Ok(s) => Ok(Some(trim(s@))),
        Err(f) => if f.kind == IoErrorKind::NotFound {
            Ok(None)
        } else {
            Err(ProviderErrorView::Io(f@))
        },
    }
}

fn read_trimmed(r: &Result<String, IoFailure>) -> (v: Result<Option<String>, ProviderError>)
    ensures
        match trimmed_file(*r) {
            Ok(Some(s)) => v matches Ok(Some(x)) && x@ == s,
            Ok(None) => v matches Ok(None),
            Err(e) => v matches Err(err) && err@ == e,
        },
{
    match r {
        Ok(s) => Ok(Some(trimmed(s.as_str()))),
        Err(f) => match f.kind {
            IoErrorKind::NotFound => Ok(None),
            _ => Err(ProviderError::Io(f.clone_failure())),
        },
    }
}

/// Whether an entry name is a primary card node: `card…` without a `-`.
pub open spec fn is_card_node(name: Seq<char>) -> bool {
    "card"@.is_prefix_of(name) && !contains_seq(name, "-"@)
}

/// Scan the entries in listing order: an unreadable entry or vendor file
/// (other than a missing one) aborts; the result is the index of the first
/// card node whose vendor is NVIDIA.
pub open spec fn nvidia_scan(entries: Seq<Result<GpuPowerCardEntry, IoFailure>>) -> Result<
    Option<int>,
    ProviderErrorView,
>
    decreases entries.len(),
{
    if entries.len() == 0 {
        Ok(None)
    } else {
        match nvidia_scan(entries.drop_last()) {
            Err(e) => Err(e),
            Ok(Some(i)) => match entries.last() {
                Err(f) => Err(ProviderErrorView::Io(f@)),
                Ok(e) => if !is_card_node(e.name@) {
                    Ok(Some(i))
                } else {
                    match trimmed_file(e.vendor) {
                        Err(x) => Err(x),
                        Ok(_) => Ok(Some(i)),
                    }
                },
            },
            Ok(None) => match entries.last() {
                Err(f) => Err(ProviderErrorView::Io(f@)),
                Ok(e) => if !is_card_node(e.name@) {
                    Ok(None)
                } else {
                    match trimmed_file(e.vendor) {
                        Err(x) => Err(x),
                        Ok(v) => if v == Some("0x10de"@) {
                            Ok(Some(entries.len() - 1))
                        } else {
                            Ok(None)
                        },
                    }
                },
            },
        }
    }
}

/// The power state of the chosen device: `runtime_status` (`active`,
/// `suspended`, `off`, anything else unknown) when present, else the PCI
/// `power_state` (`D0` active, `D3cold`/`D3hot` suspended, anything else or
/// absent unknown).
pub open spec fn device_power(
    runtime_status: Result<String, IoFailure>,
    power_state: Result<String, IoFailure>,
) -> Result<GpuPowerState, ProviderErrorView> {
    match trimmed_file(runtime_status) {
        Err(e) => Err(e),
        Ok(Some(s)) => Ok(
            if s == "active"@ {
                GpuPowerState::Active
            } else if s == "suspended"@ {
                GpuPowerState::Suspended
            } else if s == "off"@ {
                GpuPowerState::Off
            } else {
                GpuPowerState::Unknown
            },
        ),
        Ok(None) => match trimmed_file(power_state) {
            Err(e) => Err(e),
            Ok(Some(s)) => Ok(
                if s == "D0"@ {
                    GpuPowerState::Active
                } else if s == "D3cold"@ || s == "D3hot"@ {
                    GpuPowerState::Suspended
                } else {
                    GpuPowerState::Unknown
                },
            ),
            Ok(None) => Ok(GpuPowerState::Unknown),
        },
    }
}

/// The dGPU power state from the DRM listing and the chosen device's power
/// files: an unlistable directory is an I/O error; no NVIDIA card is
/// unsupported.
pub open spec fn gpu_power(
    listing: Result<Vec<Result<GpuPowerCardEntry, IoFailure>>, IoFailure>,
    runtime_status: Result<String, IoFailure>,
    power_state: Result<String, IoFailure>,
) -> Result<GpuPowerState, ProviderErrorView> {
    match listing {
        Err(f) => Err(ProviderErrorView::Io(f@)),
        Ok(entries) => match nvidia_scan(entries@) {
            Err(e) => Err(e),
            Ok(None) => Err(ProviderErrorView::Unsupported("no NVIDIA DRM device found"@)),
            Ok(Some(_)) => device_power(runtime_status, power_state),
        },
    }
}

/// Read-only dGPU power provider over a sysfs root.
#[derive(Debug, Clone)]
pub struct SysfsGpuPowerProvider {
    /// The sysfs root.
    pub sysfs_root: String,
}

/// A failure to list or read an entry keeps its I/O error.
proof fn lemma_nvidia_scan_prefix_err(entries: Seq<Result<GpuPowerCardEntry, IoFailure>>, i: int)
    requires
        0 <= i < entries.len(),
        nvidia_scan(entries.take(i + 1)) is Err,
    ensures
        nvidia_scan(entries) == nvidia_scan(entries.take(i + 1)),
    decreases entries.len() - i,
{
    if i + 1 < entries.len() {
        assert(entries.take(i + 2).drop_last() =~= entries.take(i + 1));
        lemma_nvidia_scan_prefix_err(entries, i + 1);
    } else {
        assert(entries.take(i + 1) =~= entries);
    }
}

/// Once a card is chosen, later entries only matter for their errors.
fn nvidia_card(entries: &Vec<Result<GpuPowerCardEntry, IoFailure>>) -> (r: Result<Option<usize>, ProviderError>)
    ensures
        match nvidia_scan(entries@) {
            Ok(Some(i)) => r == Ok::<Option<usize>, ProviderError>(Some(i as usize)),
            Ok(None) => r == Ok::<Option<usize>, ProviderError>(None),
            Err(e) => r matches Err(err) && err@ == e,
        },
{
    let mut found: Option<usize> = None;
    let mut i: usize = 0;
    assert(entries@.take(0) =~= Seq::<Result<GpuPowerCardEntry, IoFailure>>::empty());
    while i < entries.len()
        invariant
            0 <= i <= entries@.len(),
            nvidia_scan(entries@.take(i as int)) == Ok::<Option<int>, ProviderErrorView>(
                match found {
                    Some(k) => Some(k as int),
                    None => None,
                },
            ),
            match found {
                Some(k) => k < i,
                None => true,
            },
        decreases entries@.len() - i,
    {
        assert(entries@.take(i + 1).drop_last() =~= entries@.take(i as int));
        assert(entries@.take(i + 1).last() == entries@[i as int]);
        match &entries[i] {
            Err(f) => {
                proof {
                    lemma_nvidia_scan_prefix_err(entries@, i as int);
                }
                return Err(ProviderError::Io(f.clone_failure()));
            },
            Ok(e) => {
                if starts_with_str(e.name.as_str(), "card") && !contains_str(e.name.as_str(), "-") {
                    match read_trimmed(&e.vendor) {
                        Err(x) => {
                            proof {
                                lemma_nvidia_scan_prefix_err(entries@, i as int);
                            }
                            return Err(x);
                        },
                        Ok(v) => {
                            if found.is_none() {
                                let is_nvidia = match &v {
                                    Some(s) => str_eq(s.as_str(), "0x10de"),
                                    None => false,
                                };
                                if is_nvidia {
                                    found = Some(i);
                                }
                            }
                        },
                    }
                }
            },
        }
        i = i + 1;
    }
    assert(entries@.take(entries@.len() as int) =~= entries@);
    Ok(found)
}

impl SysfsGpuPowerProvider {
    /// A provider over `sysfs_root`.
    pub fn new(sysfs_root: &str) -> (p: Self)
        ensures
            p.sysfs_root@ == sysfs_root@,
    {
        SysfsGpuPowerProvider { sysfs_root: sysfs_root.to_owned() }
    }

    /// The DRM class directory to list.
    pub fn drm_dir(&self) -> (p: String)
        ensures
            p@ == join(self.sysfs_root@, "class/drm"@),
    {
        join_path(self.sysfs_root.as_str(), "class/drm")
    }

    /// Which listed entry is the NVIDIA card whose power files to read.
    pub fn select_nvidia_card(&self, entries: &Vec<Result<GpuPowerCardEntry, IoFailure>>) -> (r: Result<
        Option<usize>,
        ProviderError,
    >)
        ensures
            match nvidia_scan(entries@) {
                Ok(Some(i)) => r == Ok::<Option<usize>, ProviderError>(Some(i as usize)),
                Ok(None) => r == Ok::<Option<usize>, ProviderError>(None),
                Err(e) => r matches Err(err) && err@ == e,
            },
    {
        nvidia_card(entries)
    }

    /// The dGPU power state from the readings.
    pub fn read_state(
        &self,
        listing: &Result<Vec<Result<GpuPowerCardEntry, IoFailure>>, IoFailure>,
        runtime_status: &Result<String, IoFailure>,
        power_state: &Result<String, IoFailure>,
    ) -> (r: Result<GpuPowerState, ProviderError>)
        ensures
            match gpu_power(*listing, *runtime_status, *power_state) {
                Ok(s) => r == Ok::<GpuPowerState, ProviderError>(s),
                Err(e) => r matches Err(err) && err@ == e,
            },
    {
        let entries = match listing {
            Err(f) => {
                return Err(ProviderError::Io(f.clone_failure()));
            },
            Ok(e) => e,
        };
        match nvidia_card(entries) {
            Err(e) => {
                return Err(e);
            },
            Ok(None) => {
                return Err(ProviderError::Unsupported("no NVIDIA DRM device found".to_owned()));
            },
            Ok(Some(_)) => {},
        }
        match read_trimmed(runtime_status) {
            Err(e) => {
                return Err(e);
            },
            Ok(Some(s)) => {
                let t = s.as_str();
                return Ok(
                    if str_eq(t, "active") {
                        GpuPowerState::Active
                    } else if str_eq(t, "suspended") {
                        GpuPowerState::Suspended
                    } else if str_eq(t, "off") {
                        GpuPowerState::Off
                    } else {
                        GpuPowerState::Unknown
                    },
                );
            },
            Ok(None) => {},
        }
        match read_trimmed(power_state) {
            Err(e) => Err(e),
            Ok(Some(s)) => {
                let t = s.as_str();
                Ok(
                    if str_eq(t, "D0") {
                        GpuPowerState::Active
                    } else if str_eq(t, "D3cold") || str_eq(t, "D3hot") {
                        GpuPowerState::Suspended
                    } else {
                        GpuPowerState::Unknown
                    },
                )
            },
            Ok(None) => Ok(GpuPowerState::Unknown),
        }
    }

    /// Provider diagnostics.
    pub fn diagnostics(&self) -> (v: Vec<DiagnosticEntry>)
        ensures
            v@.len() == 1,
            v@[0].key@ == "provider.sysfs-gpu-power"@,
            v@[0].value@ == "read-only NVIDIA dGPU runtime power via kernel sysfs"@,
    {
        let mut v = Vec::new();
        v.push(DiagnosticEntry::new("provider.sysfs-gpu-power", "read-only NVIDIA dGPU runtime power via kernel sysfs"));
        v
    }
}

impl Default for SysfsGpuPowerProvider {
    /// The provider over `/sys`.
    fn default() -> (p: Self)
        ensures
            p.sysfs_root@ == "/sys"@,
    {
        SysfsGpuPowerProvider::new("/sys")
    }
}

} // verus!
