//! Independent GPU primitives: physical MUX, dGPU access and runtime power.
use vstd::prelude::*;

use crate::text::concat3;

verus! {

/// Which GPU drives the internal display.
#[derive(Debug, Clone, Copy, PartialEq, Eq, Structural)]
pub enum GpuMuxState {
    /// The integrated GPU drives the internal display.
    Integrated,
    /// The discrete GPU drives the internal display.
    Discrete,
    /// The MUX state could not be classified.
    Unknown,
}

/// Whether applications may use the dGPU.
#[derive(Debug, Clone, Copy, PartialEq, Eq, Structural)]
pub enum GpuAccessPolicy {
    /// Applications may use the dGPU.
    Unblocked,
    /// The dGPU is blocked.
    Blocked,
    /// The policy could not be classified.
    Unknown,
}

/// Observed runtime power state of the dGPU.
#[derive(Debug, Clone, Copy, PartialEq, Eq, Structural)]
pub enum GpuPowerState {
    /// Powered and running.
    Active,
    /// Runtime-suspended.
    Suspended,
    /// Powered off.
    Off,
    /// Not classifiable from the evidence.
    Unknown,
}

/// The `Debug` text of an access policy.
pub open spec fn access_debug(p: GpuAccessPolicy) -> Seq<char> {
    match p {
        GpuAccessPolicy::Unblocked => "Unblocked"@,
        GpuAccessPolicy::Blocked => "Blocked"@,
        GpuAccessPolicy::Unknown => "Unknown"@,
    }
}

/// The `Debug` text of an optional access policy.
pub open spec fn opt_access_debug(o: Option<GpuAccessPolicy>) -> Seq<char> {
    match o {
        Some(p) => "Some("@ + access_debug(p) + ")"@,
        None => "None"@,
    }
}

/// The `Debug` text of an access policy.
pub fn access_to_debug(p: GpuAccessPolicy) -> (s: &'static str)
    ensures
        s@ == access_debug(p),
{
    match p {
        GpuAccessPolicy::Unblocked => "Unblocked",
        GpuAccessPolicy::Blocked => "Blocked",
        GpuAccessPolicy::Unknown => "Unknown",
    }
}

/// The `Debug` text of an optional access policy.
pub fn opt_access_to_debug(o: Option<GpuAccessPolicy>) -> (s: String)
    ensures
        s@ == opt_access_debug(o),
{
    match o {
        Some(p) => concat3("Some(", access_to_debug(p), ")"),
        None => "None".to_owned(),
    }
}

} // verus!
