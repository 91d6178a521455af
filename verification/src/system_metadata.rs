//! Narrow, privacy-safe system and session metadata.
//!
//! Only the kernel release file and a three-variable environment allowlist
//! (`XDG_SESSION_TYPE`, `WAYLAND_DISPLAY`, `DISPLAY`) are consulted; the
//! full environment is never inspected and no generic compositor
//! identification is attempted. The host reads the file and the variables.
use vstd::prelude::*;
use vstd::string::*;

use crate::text::{ascii_lower, str_eq, to_ascii_lowercase, trim, trimmed};

verus! {

/// Kernel release file.
pub const KERNEL_RELEASE_PATH: &'static str = "/proc/sys/kernel/osrelease";

/// Session type variable, looked up first.
pub const SESSION_TYPE_VAR: &'static str = "XDG_SESSION_TYPE";

/// Wayland display variable.
pub const WAYLAND_DISPLAY_VAR: &'static str = "WAYLAND_DISPLAY";

/// X11 display variable.
pub const DISPLAY_VAR: &'static str = "DISPLAY";

/// Session type.
#[derive(Debug, Clone, Copy, PartialEq, Eq, Structural)]
pub enum SessionType {
    /// Wayland session.
    Wayland,
    /// X11 session.
    X11,
    /// Text console.
    Tty,
    /// Anything else or nothing.
    Unknown,
}

/// Display protocol.
#[derive(Debug, Clone, Copy, PartialEq, Eq, Structural)]
pub enum DisplayProtocol {
    /// Wayland.
    Wayland,
    /// X11.
    X11,
    /// Not known.
    Unknown,
}

/// System diagnostics.
#[derive(Debug, Clone, PartialEq, Eq)]
pub struct SystemDiagnostics {
    /// Kernel release.
    pub kernel_release: Option<String>,
    /// CPU architecture.
    pub architecture: Option<String>,
    /// Session type.
    pub session_type: SessionType,
    /// Display protocol.
    pub display_protocol: DisplayProtocol,
    /// Compositor identity; no reliable generic source exists.
    pub compositor: Option<String>,
}

/// A value trimmed, absent when blank.
pub open spec fn normalized(v: Option<Seq<char>>) -> Option<Seq<char>> {
    match v {
        Some(s) => if trim(s).len() > 0 {
            Some(trim(s))
        } else {
            None
        },
        None => None,
    }
}

/// The view of an optional string.
pub open spec fn opt_seq(o: Option<String>) -> Option<Seq<char>> {
    match o {
        Some(s) => Some(s@),
        None => None,
    }
}

/// Normalize a value: trimmed, absent when blank.
pub fn normalized_value(value: Option<String>) -> (r: Option<String>)
    ensures
        opt_seq(r) == normalized(opt_seq(value)),
{
    match value {
        Some(v) => {
            let t = trimmed(v.as_str());
            if t.as_str().is_empty() {
                None
            } else {
                Some(t)
            }
        },
        None => None,
    }
}

/// The three allowlisted session variables, normalized.
#[derive(Debug, Clone, PartialEq, Eq)]
pub struct SessionEnvironment {
    /// `XDG_SESSION_TYPE`.
    pub xdg_session_type: Option<String>,
    /// `WAYLAND_DISPLAY`.
    pub wayland_display: Option<String>,
    /// `DISPLAY`.
    pub display: Option<String>,
}

impl SessionEnvironment {
    /// No variable set.
    pub fn empty() -> (e: Self)
        ensures
            e.xdg_session_type is None && e.wayland_display is None && e.display is None,
    {
        SessionEnvironment { xdg_session_type: None, wayland_display: None, display: None }
    }

    /// The environment from the values of the allowlisted variables.
    pub fn from_values(xdg_session_type: Option<String>, wayland_display: Option<String>, display: Option<String>) -> (e: Self)
        ensures
            opt_seq(e.xdg_session_type) == normalized(opt_seq(xdg_session_type)),
            opt_seq(e.wayland_display) == normalized(opt_seq(wayland_display)),
            opt_seq(e.display) == normalized(opt_seq(display)),
    {
        SessionEnvironment {
            xdg_session_type: normalized_value(xdg_session_type),
            wayland_display: normalized_value(wayland_display),
            display: normalized_value(display),
        }
    }

    /// The environment through a lookup, which is asked exactly for
    /// `XDG_SESSION_TYPE`, `WAYLAND_DISPLAY` and `DISPLAY`, in that order.
    pub fn from_lookup<F: Fn(&str) -> Option<String>>(lookup: F) -> (e: Self)
        requires
            forall|k: &str| lookup.requires((k,)),
        ensures
            exists|a: Option<String>, b: Option<String>, c: Option<String>|
                lookup.ensures((SESSION_TYPE_VAR,), a) && lookup.ensures((WAYLAND_DISPLAY_VAR,), b)
                    && lookup.ensures((DISPLAY_VAR,), c) && opt_seq(e.xdg_session_type) == normalized(opt_seq(a))
                    && opt_seq(e.wayland_display) == normalized(opt_seq(b)) && opt_seq(e.display)
                    == normalized(opt_seq(c)),
    {
        let a = lookup(SESSION_TYPE_VAR);
        let b = lookup(WAYLAND_DISPLAY_VAR);
        let c = lookup(DISPLAY_VAR);
        SessionEnvironment::from_values(a, b, c)
    }
}

/// Session type: a recognized `XDG_SESSION_TYPE` (any ASCII case) decides;
/// an unrecognized one stays unknown; without one, a Wayland display means
/// Wayland and an X display means X11.
pub open spec fn session_type_of(xdg: Option<Seq<char>>, wayland: bool, display: bool) -> SessionType {
    match xdg {
        Some(v) => if ascii_lower(v) == "wayland"@ {
            SessionType::Wayland
        } else if ascii_lower(v) == "x11"@ {
            SessionType::X11
        } else if ascii_lower(v) == "tty"@ {
            SessionType::Tty
        } else {
            SessionType::Unknown
        },
        None => if wayland {
            SessionType::Wayland
        } else if display {
            SessionType::X11
        } else {
            SessionType::Unknown
        },
    }
}

/// Display protocol: explicit display evidence first (Wayland before X11),
/// then a recognized session type.
pub open spec fn display_protocol_of(xdg: Option<Seq<char>>, wayland: bool, display: bool) -> DisplayProtocol {
    if wayland {
        DisplayProtocol::Wayland
    } else if display {
        DisplayProtocol::X11
    } else {
        match xdg {
            Some(v) => if ascii_lower(v) == "wayland"@ {
                DisplayProtocol::Wayland
            } else if ascii_lower(v) == "x11"@ {
                DisplayProtocol::X11
            } else {
                DisplayProtocol::Unknown
            },
            None => DisplayProtocol::Unknown,
        }
    }
}

/// Classify the session type.
pub fn classify_session_type(session: &SessionEnvironment) -> (t: SessionType)
    ensures
        t == session_type_of(
            opt_seq(session.xdg_session_type),
            session.wayland_display is Some,
            session.display is Some,
        ),
{
    match &session.xdg_session_type {
        Some(v) => {
            let l = to_ascii_lowercase(v.as_str());
            if str_eq(l.as_str(), "wayland") {
                SessionType::Wayland
            } else if str_eq(l.as_str(), "x11") {
                SessionType::X11
            } else if str_eq(l.as_str(), "tty") {
                SessionType::Tty
            } else {
                SessionType::Unknown
            }
        },
        None => if session.wayland_display.is_some() {
            SessionType::Wayland
        } else if session.display.is_some() {
            SessionType::X11
        } else {
            SessionType::Unknown
        },
    }
}

/// Classify the display protocol.
pub fn classify_display_protocol(session: &SessionEnvironment) -> (p: DisplayProtocol)
    ensures
        p == display_protocol_of(
            opt_seq(session.xdg_session_type),
            session.wayland_display is Some,
            session.display is Some,
        ),
{
    if session.wayland_display.is_some() {
        return DisplayProtocol::Wayland;
    }
    if session.display.is_some() {
        return DisplayProtocol::X11;
    }
    match &session.xdg_session_type {
        Some(v) => {
            let l = to_ascii_lowercase(v.as_str());
            if str_eq(l.as_str(), "wayland") {
                DisplayProtocol::Wayland
            } else if str_eq(l.as_str(), "x11") {
                DisplayProtocol::X11
            } else {
                DisplayProtocol::Unknown
            }
        },
        None => DisplayProtocol::Unknown,
    }
}

/// System diagnostics from the kernel release, the architecture and the
/// session environment; the compositor is never guessed.
pub fn system_diagnostics_from(
    kernel_release: Option<String>,
    architecture: Option<String>,
    session: &SessionEnvironment,
) -> (d: SystemDiagnostics)
    ensures
        opt_seq(d.kernel_release) == normalized(opt_seq(kernel_release)),
        opt_seq(d.architecture) == normalized(opt_seq(architecture)),
        d.session_type == session_type_of(
            opt_seq(session.xdg_session_type),
            session.wayland_display is Some,
            session.display is Some,
        ),
        d.display_protocol == display_protocol_of(
            opt_seq(session.xdg_session_type),
            session.wayland_display is Some,
            session.display is Some,
        ),
        d.compositor is None,
{
    SystemDiagnostics {
        kernel_release: normalized_value(kernel_release),
        architecture: normalized_value(architecture),
        session_type: classify_session_type(session),
        display_protocol: classify_display_protocol(session),
        compositor: None,
    }
}

/// Provider of system and session metadata.
#[derive(Debug, Clone, Copy, PartialEq, Eq)]
pub struct SystemMetadataProvider;

impl SystemMetadataProvider {
    /// The provider.
    pub fn new() -> (p: Self) {
        SystemMetadataProvider
    }

    /// One snapshot from the kernel release file's content (if readable),
    /// the architecture and the session environment.
    pub fn snapshot(&self, kernel_release_file: Option<String>, architecture: &str, session: &SessionEnvironment) -> (d: SystemDiagnostics)
        ensures
            opt_seq(d.kernel_release) == normalized(opt_seq(kernel_release_file)),
            opt_seq(d.architecture) == normalized(Some(architecture@)),
            d.session_type == session_type_of(
                opt_seq(session.xdg_session_type),
                session.wayland_display is Some,
                session.display is Some,
            ),
            d.display_protocol == display_protocol_of(
                opt_seq(session.xdg_session_type),
                session.wayland_display is Some,
                session.display is Some,
            ),
            d.compositor is None,
    {
        system_diagnostics_from(kernel_release_file, Some(architecture.to_owned()), session)
    }
}

impl Default for SystemMetadataProvider {
    /// The provider.
    fn default() -> (p: Self) {
        SystemMetadataProvider
    }
}

} // verus!
