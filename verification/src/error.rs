//! Provider errors and small helper types.
use vstd::prelude::*;

use crate::telemetry::{duration_nanos, duration_since, now, unix_epoch};
use crate::text::{concat2, decimal, push_char, to_decimal};

verus! {

/// The classes of a failed file-system read that provider logic distinguishes.
#[derive(Debug, Clone, Copy, PartialEq, Eq)]
pub enum IoErrorKind {
    /// `std::io::ErrorKind::NotFound`.
    NotFound,
    /// `std::io::ErrorKind::PermissionDenied`.
    PermissionDenied,
    /// Every other `std::io::ErrorKind`.
    Other,
}

/// A failed read as plain values: its kind, raw OS error and `Display` text.
#[derive(Debug, Clone, PartialEq, Eq)]
pub struct IoFailure {
    /// Error class.
    pub kind: IoErrorKind,
    /// `std::io::Error::raw_os_error`.
    pub raw_os_error: Option<i32>,
    /// `Display` text of the error.
    pub message: String,
}

/// Spec view of an [`IoFailure`].
pub struct IoFailureView {
    /// Error class.
    pub kind: IoErrorKind,
    /// Raw OS error.
    pub raw_os_error: Option<i32>,
    /// Error text.
    pub message: Seq<char>,
}

impl View for IoFailure {
    type V = IoFailureView;

    open spec fn view(&self) -> IoFailureView {
        IoFailureView { kind: self.kind, raw_os_error: self.raw_os_error, message: self.message@ }
    }
}

impl IoFailure {
    /// A copy of the failure.
    pub fn clone_failure(&self) -> (c: Self)
        ensures
            c@ == self@,
    {
        IoFailure { kind: self.kind, raw_os_error: self.raw_os_error, message: self.message.clone() }
    }
}

/// Provider errors.
#[derive(Debug, Clone, PartialEq, Eq)]
pub enum ProviderError {
    /// The backend is unavailable (service not running, no D-Bus).
    BackendUnavailable(String),
    /// The feature is not supported.
    Unsupported(String),
    /// Insufficient permissions.
    PermissionDenied(String),
    /// The request failed validation.
    InvalidRequest(String),
    /// The operation timed out.
    Timeout(String),
    /// Input/output failure.
    Io(IoFailure),
    /// D-Bus failure.
    Dbus(String),
    /// Internal error.
    Internal(String),
    /// Sources contradict one another.
    Conflict(String),
}

/// Spec view of a [`ProviderError`].
pub enum ProviderErrorView {
    /// See [`ProviderError::BackendUnavailable`].
    BackendUnavailable(Seq<char>),
    /// See [`ProviderError::Unsupported`].
    Unsupported(Seq<char>),
    /// See [`ProviderError::PermissionDenied`].
    PermissionDenied(Seq<char>),
    /// See [`ProviderError::InvalidRequest`].
    InvalidRequest(Seq<char>),
    /// See [`ProviderError::Timeout`].
    Timeout(Seq<char>),
    /// See [`ProviderError::Io`].
    Io(IoFailureView),
    /// See [`ProviderError::Dbus`].
    Dbus(Seq<char>),
    /// See [`ProviderError::Internal`].
    Internal(Seq<char>),
    /// See [`ProviderError::Conflict`].
    Conflict(Seq<char>),
}

impl View for ProviderError {
    type V = ProviderErrorView;

    open spec fn view(&self) -> ProviderErrorView {
        match self {
            ProviderError::BackendUnavailable(m) => ProviderErrorView::BackendUnavailable(m@),
            ProviderError::Unsupported(m) => ProviderErrorView::Unsupported(m@),
            ProviderError::PermissionDenied(m) => ProviderErrorView::PermissionDenied(m@),
            ProviderError::InvalidRequest(m) => ProviderErrorView::InvalidRequest(m@),
            ProviderError::Timeout(m) => ProviderErrorView::Timeout(m@),
            ProviderError::Io(f) => ProviderErrorView::Io(f@),
            ProviderError::Dbus(m) => ProviderErrorView::Dbus(m@),
            ProviderError::Internal(m) => ProviderErrorView::Internal(m@),
            ProviderError::Conflict(m) => ProviderErrorView::Conflict(m@),
        }
    }
}

impl ProviderError {
    /// A copy of the error.
    pub fn clone_error(&self) -> (c: Self)
        ensures
            c@ == self@,
    {
        match self {
            ProviderError::BackendUnavailable(m) => ProviderError::BackendUnavailable(m.clone()),
            ProviderError::Unsupported(m) => ProviderError::Unsupported(m.clone()),
            ProviderError::PermissionDenied(m) => ProviderError::PermissionDenied(m.clone()),
            ProviderError::InvalidRequest(m) => ProviderError::InvalidRequest(m.clone()),
            ProviderError::Timeout(m) => ProviderError::Timeout(m.clone()),
            ProviderError::Io(f) => ProviderError::Io(f.clone_failure()),
            ProviderError::Dbus(m) => ProviderError::Dbus(m.clone()),
            ProviderError::Internal(m) => ProviderError::Internal(m.clone()),
            ProviderError::Conflict(m) => ProviderError::Conflict(m.clone()),
        }
    }
}

/// A failed D-Bus call as plain values.
#[derive(Debug, Clone, PartialEq, Eq)]
pub enum DbusFailure {
    /// The proxy could not be built: the address part (`destination`,
    /// `path` or `interface`) that was refused, and the error text.
    InvalidAddress { part: String, text: String },
    /// An error reply: the D-Bus error name and the error text.
    MethodError { name: String, text: String },
    /// A standard `org.freedesktop.DBus.Error.*` reply: its error name, its
    /// message and the error text.
    Fdo { name: String, message: String, text: String },
    /// The interface is not present on the object.
    InterfaceNotFound { text: String },
    /// Any other failure, by its text.
    Other { text: String },
}

impl DbusFailure {
    /// The display text of the failure.
    pub open spec fn text(self) -> Seq<char> {
        match self {
            DbusFailure::InvalidAddress { text, .. } => text@,
            DbusFailure::MethodError { text, .. } => text@,
            DbusFailure::Fdo { text, .. } => text@,
            DbusFailure::InterfaceNotFound { text } => text@,
            DbusFailure::Other { text } => text@,
        }
    }

    /// The display text of the failure.
    pub fn text_string(&self) -> (s: String)
        ensures
            s@ == self.text(),
    {
        match self {
            DbusFailure::InvalidAddress { text, .. } => text.clone(),
            DbusFailure::MethodError { text, .. } => text.clone(),
            DbusFailure::Fdo { text, .. } => text.clone(),
            DbusFailure::InterfaceNotFound { text } => text.clone(),
            DbusFailure::Other { text } => text.clone(),
        }
    }
}

/// Result of validating a request before a write.
#[derive(Debug, Clone, PartialEq, Eq)]
pub enum ValidationResult {
    /// The request is acceptable.
    Valid,
    /// The request is not acceptable (with a human-readable reason).
    Invalid(String),
}

impl ValidationResult {
    /// The acceptable result.
    pub fn ok() -> (r: Self)
        ensures
            r == ValidationResult::Valid,
    {
        ValidationResult::Valid
    }

    /// A rejection with `message` as its reason.
    pub fn invalid(message: &str) -> (r: Self)
        ensures
            r matches ValidationResult::Invalid(m) && m@ == message@,
    {
        ValidationResult::Invalid(message.to_owned())
    }

    /// `Ok(())`, or `Err(InvalidRequest)` carrying the rejection reason.
    pub fn into_result(self) -> (r: Result<(), ProviderError>)
        ensures
            match self {
                ValidationResult::Valid => r is Ok,
                ValidationResult::Invalid(m) => r matches Err(e) && e@ == ProviderErrorView::InvalidRequest(m@),
            },
    {
        match self {
            ValidationResult::Valid => Ok(()),
            ValidationResult::Invalid(msg) => Err(ProviderError::InvalidRequest(msg)),
        }
    }
}

/// Operation identifier (for logging and for cancelling stale requests).
#[derive(Debug, Clone, PartialEq, Eq, Hash)]
pub struct OperationId(pub String);

/// Lower-case hexadecimal digits of `n` (no leading zeros; `"0"` for zero).
pub open spec fn lower_hex(n: nat) -> Seq<char>
    decreases n,
{
    if n < 16 {
        seq![hex_digit(n)]
    } else {
        lower_hex(n / 16).push(hex_digit(n % 16))
    }
}

/// One lower-case hexadecimal digit.
pub open spec fn hex_digit(d: nat) -> char {
    if d < 10 {
        (0x30 + d) as char
    } else {
        (0x61 + d - 10) as char
    }
}

fn hex_digit_exec(d: u8) -> (c: char)
    requires
        d < 16,
    ensures
        c == hex_digit(d as nat),
{
    let cs: [char; 16] = ['0', '1', '2', '3', '4', '5', '6', '7', '8', '9', 'a', 'b', 'c', 'd', 'e', 'f'];
    let c = cs[d as usize];
    assert(c == hex_digit(d as nat)) by {
        assert(cs@[d as int] == hex_digit(d as nat));
    }
    c
}

/// `format!("{n:x}")`.
pub fn to_lower_hex(n: u128) -> (s: String)
    ensures
        s@ == lower_hex(n as nat),
    decreases n,
{
    if n < 16 {
        let mut s = String::new();
        push_char(&mut s, hex_digit_exec(n as u8));
        assert(s@ =~= seq![hex_digit(n as nat)]);
        s
    } else {
        let mut s = to_lower_hex(n / 16);
        push_char(&mut s, hex_digit_exec((n % 16) as u8));
        s
    }
}

/// Nanoseconds since the Unix epoch by the current clock, or 0 when the
/// clock is before the epoch. The value rests on the clock alone, so no
/// clause states it.
fn clock_nanos() -> u128 {
    match duration_since(now(), unix_epoch()) {
        Some(d) => duration_nanos(d),
        None => 0,
    }
}

impl OperationId {
    /// A new identifier: `op-` followed by the current clock reading in hex.
    pub fn new() -> (id: Self)
        ensures
            exists|n: nat| id.0@ == "op-"@ + lower_hex(n),
    {
        let n = clock_nanos();
        let suffix = to_lower_hex(n);
        OperationId(concat2("op-", suffix.as_str()))
    }

    /// The identifier of a clock reading `nanos` in process `pid`: `op-`, the
    /// reading in hex, `-` and the process id in decimal.
    pub fn from_parts(nanos: u128, pid: u32) -> (id: Self)
        ensures
            id.0@ == "op-"@ + lower_hex(nanos as nat) + "-"@ + decimal(pid as nat),
    {
        let hex = to_lower_hex(nanos);
        let mut s = concat2("op-", hex.as_str());
        let tail = concat2("-", to_decimal(pid as u64).as_str());
        s.append(tail.as_str());
        OperationId(s)
    }
}

} // verus!
