//! Read-only Linux cpufreq policy evidence (driver, EPP, boost).
//!
//! Source: `<sysfs>/devices/system/cpu/cpu0/cpufreq/`. Nothing is written:
//! there is no EPP or boost write owner.
use vstd::prelude::*;
use vstd::string::*;

use crate::diagnostics::DiagnosticEntry;
use crate::error::{IoErrorKind, IoFailure, IoFailureView, ProviderError, ProviderErrorView};
use crate::paths::{join, join_path};
use crate::text::{concat2, debug_str, debug_text, split_words, str_eq, strs, trim, trimmed, words};

verus! {

/// CPU frequency policy evidence.
#[derive(Debug, Clone, PartialEq, Eq)]
pub struct CpuFrequencyDiagnostics {
    /// `scaling_driver`.
    pub driver: String,
    /// `energy_performance_available_preferences`, word by word.
    pub available_epp_preferences: Vec<String>,
    /// `energy_performance_preference`.
    pub current_epp_preference: String,
    /// `boost`.
    pub boost: bool,
}

/// The cpufreq policy directory below a sysfs root.
pub open spec fn cpufreq_dir(root: Seq<char>) -> Seq<char> {
    join(root, "devices/system/cpu/cpu0/cpufreq"@)
}

/// The error of a failed attribute read: `ENODEV` is a transient backend
/// outage, a missing attribute is unsupported, a refused read a permission
/// failure, anything else an I/O error.
pub open spec fn cpufreq_error(path: Seq<char>, f: IoFailureView) -> ProviderErrorView {
    if f.raw_os_error == Some(19i32) {
        ProviderErrorView::BackendUnavailable("cpu frequency ENODEV: "@ + path)
    } else if f.kind == IoErrorKind::NotFound {
        ProviderErrorView::Unsupported("cpu frequency attribute absent: "@ + path)
    } else if f.kind == IoErrorKind::PermissionDenied {
        ProviderErrorView::PermissionDenied("cpu frequency read denied: "@ + path)
    } else {
        ProviderErrorView::Io(f)
    }
}

/// Map a failed attribute read.
pub fn map_cpufreq_error(path: &str, failure: &IoFailure) -> (e: ProviderError)
    ensures
        e@ == cpufreq_error(path@, failure@),
{
    if matches!(failure.raw_os_error, Some(19)) {
        return ProviderError::BackendUnavailable(concat2("cpu frequency ENODEV: ", path));
    }
    match failure.kind {
        IoErrorKind::NotFound => ProviderError::Unsupported(concat2("cpu frequency attribute absent: ", path)),
        IoErrorKind::PermissionDenied => ProviderError::PermissionDenied(
            concat2("cpu frequency read denied: ", path),
        ),
        _ => ProviderError::Io(failure.clone_failure()),
    }
}

/// The four cpufreq attributes as the host read them.
#[derive(Debug)]
pub struct CpuFrequencyReadings {
    /// `scaling_driver`.
    pub scaling_driver: Result<String, IoFailure>,
    /// `energy_performance_available_preferences`.
    pub available_preferences: Result<String, IoFailure>,
    /// `energy_performance_preference`.
    pub preference: Result<String, IoFailure>,
    /// `boost`.
    pub boost: Result<String, IoFailure>,
}

/// The decoded evidence: driver, preferences, current preference, boost.
pub struct CpuFrequencyView {
    /// Driver.
    pub driver: Seq<char>,
    /// Available preferences.
    pub available: Seq<Seq<char>>,
    /// Current preference.
    pub current: Seq<char>,
    /// Boost.
    pub boost: bool,
}

/// One attribute: its content or the mapped failure.
pub open spec fn attr(dir: Seq<char>, name: Seq<char>, r: Result<String, IoFailure>) -> Result<
    Seq<char>,
    ProviderErrorView,
> {
    match r {
        Ok(s) => Ok(s@),
        Err(f) => Err(cpufreq_error(join(dir, name), f@)),
    }
}

/// The evidence, attributes read in order (driver, available preferences,
/// current preference, boost): boost must be `0` or `1`; an empty driver,
/// preference list or current preference is an internal error.
pub open spec fn cpu_frequency_of(dir: Seq<char>, r: CpuFrequencyReadings) -> Result<
    CpuFrequencyView,
    ProviderErrorView,
> {
    match attr(dir, "scaling_driver"@, r.scaling_driver) {
        Err(e) => Err(e),
        Ok(d) => match attr(dir, "energy_performance_available_preferences"@, r.available_preferences) {
            Err(e) => Err(e),
            Ok(a) => match attr(dir, "energy_performance_preference"@, r.preference) {
                Err(e) => Err(e),
                Ok(c) => match attr(dir, "boost"@, r.boost) {
                    Err(e) => Err(e),
                    Ok(b) => {
                        let bt = trim(b);
                        if bt != "0"@ && bt != "1"@ {
                            Err(ProviderErrorView::Internal("cpu frequency malformed boost: "@ + debug_str(bt)))
                        } else if trim(d).len() == 0 || words(a).len() == 0 || trim(c).len() == 0 {
                            Err(ProviderErrorView::Internal("cpu frequency contains an empty required value"@))
                        } else {
                            Ok(
                                CpuFrequencyView {
                                    driver: trim(d),
                                    available: words(a),
                                    current: trim(c),
                                    boost: bt == "1"@,
                                },
                            )
                        }
                    },
                },
            },
        },
    }
}

/// Read-only cpufreq provider over a sysfs root.
#[derive(Debug, Clone)]
pub struct SysfsCpuFrequencyProvider {
    /// The sysfs root.
    pub sysfs_root: String,
}

fn read_attr(dir: &str, name: &str, r: &Result<String, IoFailure>) -> (v: Result<String, ProviderError>)
    ensures
        match attr(dir@, name@, *r) {
            Ok(s) => v matches Ok(x) && x@ == s,
            Err(e) => v matches Err(err) && err@ == e,
        },
{
    match r {
        Ok(s) => Ok(s.clone()),
        Err(f) => {
            let p = join_path(dir, name);
            Err(map_cpufreq_error(p.as_str(), f))
        },
    }
}

impl SysfsCpuFrequencyProvider {
    /// A provider over `sysfs_root`.
    pub fn new(sysfs_root: &str) -> (p: Self)
        ensures
            p.sysfs_root@ == sysfs_root@,
    {
        SysfsCpuFrequencyProvider { sysfs_root: sysfs_root.to_owned() }
    }

    /// The path of one cpufreq attribute.
    pub fn path(&self, name: &str) -> (p: String)
        ensures
            p@ == join(cpufreq_dir(self.sysfs_root@), name@),
    {
        let dir = join_path(self.sysfs_root.as_str(), "devices/system/cpu/cpu0/cpufreq");
        join_path(dir.as_str(), name)
    }

    /// Provider diagnostics.
    pub fn diagnostics(&self) -> (v: Vec<DiagnosticEntry>)
        ensures
            v@.len() == 1,
            v@[0].key@ == "provider.sysfs-cpu-frequency"@,
            v@[0].value@ == "read-only CPU frequency policy evidence; no EPP or boost write owner"@,
    {
        let mut v = Vec::new();
        v.push(
            DiagnosticEntry::new(
                "provider.sysfs-cpu-frequency",
                "read-only CPU frequency policy evidence; no EPP or boost write owner",
            ),
        );
        v
    }

    /// The cpufreq evidence from the attributes the host read.
    pub fn cpu_frequency(&self, r: &CpuFrequencyReadings) -> (v: Result<CpuFrequencyDiagnostics, ProviderError>)
        ensures
            match cpu_frequency_of(cpufreq_dir(self.sysfs_root@), *r) {
                Ok(x) => v matches Ok(d) && d.driver@ == x.driver && strs(d.available_epp_preferences@)
                    == x.available && d.current_epp_preference@ == x.current && d.boost == x.boost,
                Err(e) => v matches Err(err) && err@ == e,
            },
    {
        let dir = join_path(self.sysfs_root.as_str(), "devices/system/cpu/cpu0/cpufreq");
        let d = match read_attr(dir.as_str(), "scaling_driver", &r.scaling_driver) {
            Ok(s) => s,
            Err(e) => {
                return Err(e);
            },
        };
        let a = match read_attr(dir.as_str(), "energy_performance_available_preferences", &r.available_preferences) {
            Ok(s) => s,
            Err(e) => {
                return Err(e);
            },
        };
        let c = match read_attr(dir.as_str(), "energy_performance_preference", &r.preference) {
            Ok(s) => s,
            Err(e) => {
                return Err(e);
            },
        };
        let b = match read_attr(dir.as_str(), "boost", &r.boost) {
            Ok(s) => s,
            Err(e) => {
                return Err(e);
            },
        };
        let driver = trimmed(d.as_str());
        let available = split_words(a.as_str());
        let current = trimmed(c.as_str());
        let bt = trimmed(b.as_str());
        assert(strs(available@).len() == available@.len());
        proof {
            reveal_strlit("0");
            reveal_strlit("1");
            assert("0"@ != "1"@) by {
                assert("0"@[0] != "1"@[0]);
            }
        }
        let boost = if str_eq(bt.as_str(), "0") {
            false
        } else if str_eq(bt.as_str(), "1") {
            true
        } else {
            let m = concat2("cpu frequency malformed boost: ", debug_text(bt.as_str()).as_str());
            return Err(ProviderError::Internal(m));
        };
        if driver.as_str().is_empty() || available.len() == 0 || current.as_str().is_empty() {
            return Err(ProviderError::Internal("cpu frequency contains an empty required value".to_owned()));
        }
        Ok(
            CpuFrequencyDiagnostics {
                driver,
                available_epp_preferences: available,
                current_epp_preference: current,
                boost,
            },
        )
    }
}

impl Default for SysfsCpuFrequencyProvider {
    /// The provider over `/sys`.
    fn default() -> (p: Self)
        ensures
            p.sysfs_root@ == "/sys"@,
    {
        SysfsCpuFrequencyProvider::new("/sys")
    }
}

} // verus!
