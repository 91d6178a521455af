//! Backend-neutral read/staged contract for supergfxd 5.2.7.
use vstd::prelude::*;

use crate::gpu::GpuPowerState;
use crate::text::{decimal, to_decimal, concat3};

verus! {

/// Exact supergfxd backend mode, separate from the product GPU mode.
#[derive(Debug, Clone, Copy, PartialEq, Eq, Structural)]
pub enum SupergfxdMode {
    /// Hybrid/Optimus.
    Hybrid,
    /// Integrated GPU only.
    Integrated,
    /// NVIDIA without modeset.
    NvidiaNoModeset,
    /// VFIO.
    Vfio,
    /// ASUS eGPU.
    AsusEgpu,
    /// ASUS MUX discrete GPU.
    AsusMuxDgpu,
    /// No mode.
    NoMode,
    /// Future wire value.
    Unknown(u32),
}

/// The mode that a supergfxd 5.2.7 wire discriminant names.
pub open spec fn mode_of_wire(raw: u32) -> SupergfxdMode {
    if raw == 0 {
        SupergfxdMode::Hybrid
    } else if raw == 1 {
        SupergfxdMode::Integrated
    } else if raw == 2 {
        SupergfxdMode::NvidiaNoModeset
    } else if raw == 3 {
        SupergfxdMode::Vfio
    } else if raw == 4 {
        SupergfxdMode::AsusEgpu
    } else if raw == 5 {
        SupergfxdMode::AsusMuxDgpu
    } else if raw == 6 {
        SupergfxdMode::NoMode
    } else {
        SupergfxdMode::Unknown(raw)
    }
}

impl SupergfxdMode {
    /// Decode a supergfxd 5.2.7 mode wire discriminant.
    pub fn from_wire(raw: u32) -> (m: Self)
        ensures
            m == mode_of_wire(raw),
    {
        match raw {
            0 => SupergfxdMode::Hybrid,
            1 => SupergfxdMode::Integrated,
            2 => SupergfxdMode::NvidiaNoModeset,
            3 => SupergfxdMode::Vfio,
            4 => SupergfxdMode::AsusEgpu,
            5 => SupergfxdMode::AsusMuxDgpu,
            6 => SupergfxdMode::NoMode,
            other => SupergfxdMode::Unknown(other),
        }
    }
}

/// The power state that a supergfxd `Power()` wire value proves.
pub open spec fn power_of_wire(raw: u32) -> GpuPowerState {
    if raw == 0 {
        GpuPowerState::Active
    } else if raw == 1 {
        GpuPowerState::Suspended
    } else if raw == 2 {
        GpuPowerState::Off
    } else {
        GpuPowerState::Unknown
    }
}

/// Decode the supergfxd `Power()` wire value without collapsing unknown backend
/// states into a known physical power state.
///
/// Live/read-path evidence establishes only 0=Active, 1=Suspended and 2=Off.
pub fn power_from_wire(raw: u32) -> (p: GpuPowerState)
    ensures
        p == power_of_wire(raw),
{
    match raw {
        0 => GpuPowerState::Active,
        1 => GpuPowerState::Suspended,
        2 => GpuPowerState::Off,
        _ => GpuPowerState::Unknown,
    }
}

/// Exact supergfxd user action.
#[derive(Debug, Clone, Copy, PartialEq, Eq, Structural)]
pub enum SupergfxdUserAction {
    /// Logout required.
    Logout,
    /// Reboot required.
    Reboot,
    /// Switch to Integrated first.
    SwitchToIntegrated,
    /// Disable ASUS eGPU.
    AsusEgpuDisable,
    /// No action required.
    Nothing,
    /// Future wire value.
    Unknown(u32),
}

/// The action that a supergfxd 5.2.7 wire discriminant names.
pub open spec fn action_of_wire(raw: u32) -> SupergfxdUserAction {
    if raw == 0 {
        SupergfxdUserAction::Logout
    } else if raw == 1 {
        SupergfxdUserAction::Reboot
    } else if raw == 2 {
        SupergfxdUserAction::SwitchToIntegrated
    } else if raw == 3 {
        SupergfxdUserAction::AsusEgpuDisable
    } else if raw == 4 {
        SupergfxdUserAction::Nothing
    } else {
        SupergfxdUserAction::Unknown(raw)
    }
}

impl SupergfxdUserAction {
    /// Decode a supergfxd 5.2.7 action wire discriminant.
    pub fn from_wire(raw: u32) -> (a: Self)
        ensures
            a == action_of_wire(raw),
    {
        match raw {
            0 => SupergfxdUserAction::Logout,
            1 => SupergfxdUserAction::Reboot,
            2 => SupergfxdUserAction::SwitchToIntegrated,
            3 => SupergfxdUserAction::AsusEgpuDisable,
            4 => SupergfxdUserAction::Nothing,
            other => SupergfxdUserAction::Unknown(other),
        }
    }
}

/// Read-only supergfxd staged snapshot.
#[derive(Debug, Clone, PartialEq, Eq)]
pub struct SupergfxdSnapshot {
    /// Current backend mode.
    pub current_mode: SupergfxdMode,
    /// Pending backend mode.
    pub pending_mode: SupergfxdMode,
    /// Pending user action.
    pub pending_user_action: SupergfxdUserAction,
    /// Current power state.
    pub power: GpuPowerState,
    /// Supported backend modes.
    pub supported_modes: Vec<SupergfxdMode>,
}

/// Pure staged-state classification.
#[derive(Debug, Clone, Copy, PartialEq, Eq, Structural)]
pub enum SupergfxdStagedState {
    /// Applied with no pending state.
    Applied,
    /// Pending without a user action.
    Pending,
    /// Pending and requiring a user action.
    RequiresUserAction(SupergfxdUserAction),
    /// Contradictory or unknown state.
    Inconsistent,
}

/// Whether a mode is a known wire value.
pub open spec fn mode_known(m: SupergfxdMode) -> bool {
    !(m is Unknown)
}

/// The staged state of `requested` given the current/pending/action triple.
///
/// Unknown wire values, an action without a pending mode, a pending mode other
/// than the requested one, or a pending change while the requested mode is
/// already current are contradictions. Otherwise the request is applied when
/// current and nothing is pending, pending when it is queued without action,
/// and waits for the user action when one is required.
pub open spec fn staged_state(
    requested: SupergfxdMode,
    current: SupergfxdMode,
    pending: SupergfxdMode,
    action: SupergfxdUserAction,
) -> SupergfxdStagedState {
    let known = mode_known(requested) && mode_known(current) && mode_known(pending) && !(action is Unknown);
    let pending_none = pending == SupergfxdMode::NoMode;
    let action_nothing = action == SupergfxdUserAction::Nothing;
    if !known || (!action_nothing && pending_none) || (!pending_none && pending != requested) || (
    current == requested && !pending_none) {
        SupergfxdStagedState::Inconsistent
    } else if current == requested {
        SupergfxdStagedState::Applied
    } else if pending == requested && action_nothing {
        SupergfxdStagedState::Pending
    } else if pending == requested {
        SupergfxdStagedState::RequiresUserAction(action)
    } else {
        SupergfxdStagedState::Inconsistent
    }
}

/// Classify a requested backend mode against a fresh snapshot.
pub fn classify_supergfxd_state(requested: SupergfxdMode, snapshot: &SupergfxdSnapshot) -> (r:
    SupergfxdStagedState)
    ensures
        r == staged_state(
            requested,
            snapshot.current_mode,
            snapshot.pending_mode,
            snapshot.pending_user_action,
        ),
{
    let known = !matches!(requested, SupergfxdMode::Unknown(_)) && !matches!(snapshot.current_mode, SupergfxdMode::Unknown(_))
        && !matches!(snapshot.pending_mode, SupergfxdMode::Unknown(_)) && !matches!(
        snapshot.pending_user_action,
        SupergfxdUserAction::Unknown(_)
    );
    let pending_none = snapshot.pending_mode == SupergfxdMode::NoMode;
    let action_nothing = snapshot.pending_user_action == SupergfxdUserAction::Nothing;
    let pending_matches = snapshot.pending_mode == requested;
    if !known || (!action_nothing && pending_none) || (!pending_none && !pending_matches) || (
    snapshot.current_mode == requested && !pending_none) {
        return SupergfxdStagedState::Inconsistent;
    }
    if snapshot.current_mode == requested && pending_none && action_nothing {
        return SupergfxdStagedState::Applied;
    }
    if pending_matches {
        return if action_nothing {
            SupergfxdStagedState::Pending
        } else {
            SupergfxdStagedState::RequiresUserAction(snapshot.pending_user_action)
        };
    }
    SupergfxdStagedState::Inconsistent
}

/// The `Debug` text of a mode: the variant name, `None` for the absent mode,
/// and `Unknown(n)` for a future wire value.
pub open spec fn mode_debug(m: SupergfxdMode) -> Seq<char> {
    match m {
        SupergfxdMode::Hybrid => "Hybrid"@,
        SupergfxdMode::Integrated => "Integrated"@,
        SupergfxdMode::NvidiaNoModeset => "NvidiaNoModeset"@,
        SupergfxdMode::Vfio => "Vfio"@,
        SupergfxdMode::AsusEgpu => "AsusEgpu"@,
        SupergfxdMode::AsusMuxDgpu => "AsusMuxDgpu"@,
        SupergfxdMode::NoMode => "None"@,
        SupergfxdMode::Unknown(n) => "Unknown("@ + decimal(n as nat) + ")"@,
    }
}

/// The `Debug` text of a user action: the variant name, or `Unknown(n)`.
pub open spec fn action_debug(a: SupergfxdUserAction) -> Seq<char> {
    match a {
        SupergfxdUserAction::Logout => "Logout"@,
        SupergfxdUserAction::Reboot => "Reboot"@,
        SupergfxdUserAction::SwitchToIntegrated => "SwitchToIntegrated"@,
        SupergfxdUserAction::AsusEgpuDisable => "AsusEgpuDisable"@,
        SupergfxdUserAction::Nothing => "Nothing"@,
        SupergfxdUserAction::Unknown(n) => "Unknown("@ + decimal(n as nat) + ")"@,
    }
}

impl SupergfxdMode {
    /// The `Debug` text of the mode.
    pub fn debug_text(&self) -> (s: String)
        ensures
            s@ == mode_debug(*self),
    {
        match self {
            SupergfxdMode::Hybrid => "Hybrid".to_owned(),
            SupergfxdMode::Integrated => "Integrated".to_owned(),
            SupergfxdMode::NvidiaNoModeset => "NvidiaNoModeset".to_owned(),
            SupergfxdMode::Vfio => "Vfio".to_owned(),
            SupergfxdMode::AsusEgpu => "AsusEgpu".to_owned(),
            SupergfxdMode::AsusMuxDgpu => "AsusMuxDgpu".to_owned(),
            SupergfxdMode::NoMode => "None".to_owned(),
            SupergfxdMode::Unknown(n) => {
                let d = to_decimal(*n as u64);
                concat3("Unknown(", d.as_str(), ")")
            },
        }
    }
}

impl SupergfxdUserAction {
    /// The `Debug` text of the action.
    pub fn debug_text(&self) -> (s: String)
        ensures
            s@ == action_debug(*self),
    {
        match self {
            SupergfxdUserAction::Logout => "Logout".to_owned(),
            SupergfxdUserAction::Reboot => "Reboot".to_owned(),
            SupergfxdUserAction::SwitchToIntegrated => "SwitchToIntegrated".to_owned(),
            SupergfxdUserAction::AsusEgpuDisable => "AsusEgpuDisable".to_owned(),
            SupergfxdUserAction::Nothing => "Nothing".to_owned(),
            SupergfxdUserAction::Unknown(n) => {
                let d = to_decimal(*n as u64);
                concat3("Unknown(", d.as_str(), ")")
            },
        }
    }
}

} // verus!
