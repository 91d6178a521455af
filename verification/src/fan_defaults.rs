//! Typed fan-curve factory-default mutation boundary.
//!
//! A factory reset is profile-wide and keeps the lossless ASUS profile
//! identity (Balanced/Performance/Quiet/LowPower). The host calls Hardware1
//! directly from the original process (so polkit authorizes the original
//! caller); this module judges the reply.
use vstd::prelude::*;
use vstd::string::*;

use crate::error::{DbusFailure, ProviderError, ProviderErrorView};
use crate::mock::ApplyResult;
use crate::text::{concat2, decimal, str_eq, to_decimal};

verus! {

/// Hardware1 interface.
pub const HARDWARE1_INTERFACE: &'static str = "io.github.orbiscontrol.Hardware1";

/// Hardware1 service.
pub const HARDWARE1_SERVICE: &'static str = "io.github.orbiscontrol.Hardware";

/// Hardware1 object path.
pub const HARDWARE1_PATH: &'static str = "/io/github/orbiscontrol/Hardware";

/// ASUS fan profile, as asusd numbers it on the wire.
#[derive(Debug, Clone, Copy, PartialEq, Eq, Structural)]
pub enum AsusdFanProfile {
    /// 0.
    Balanced,
    /// 1.
    Performance,
    /// 2.
    Quiet,
    /// 3.
    LowPower,
}

/// The wire value of a profile.
pub open spec fn profile_wire(p: AsusdFanProfile) -> u32 {
    match p {
        AsusdFanProfile::Balanced => 0,
        AsusdFanProfile::Performance => 1,
        AsusdFanProfile::Quiet => 2,
        AsusdFanProfile::LowPower => 3,
    }
}

impl AsusdFanProfile {
    /// The wire value.
    pub fn wire(self) -> (w: u32)
        ensures
            w == profile_wire(self),
    {
        match self {
            AsusdFanProfile::Balanced => 0,
            AsusdFanProfile::Performance => 1,
            AsusdFanProfile::Quiet => 2,
            AsusdFanProfile::LowPower => 3,
        }
    }
}

/// The provider error of a failed Hardware1 call: standard `NotSupported`,
/// `AccessDenied` and `InvalidArgs` replies keep their message as
/// unsupported, permission and invalid-request errors; anything else stays
/// a D-Bus error with its text.
pub open spec fn hardware1_error(f: DbusFailure) -> ProviderErrorView {
    match f {
        DbusFailure::Fdo { name, message, text } => if name@ == "org.freedesktop.DBus.Error.NotSupported"@ {
            ProviderErrorView::Unsupported(message@)
        } else if name@ == "org.freedesktop.DBus.Error.AccessDenied"@ {
            ProviderErrorView::PermissionDenied(message@)
        } else if name@ == "org.freedesktop.DBus.Error.InvalidArgs"@ {
            ProviderErrorView::InvalidRequest(message@)
        } else {
            ProviderErrorView::Dbus(text@)
        },
        _ => ProviderErrorView::Dbus(f.text()),
    }
}

/// Map a failed Hardware1 call.
pub fn dbus_error(failure: &DbusFailure) -> (e: ProviderError)
    ensures
        e@ == hardware1_error(*failure),
{
    match failure {
        DbusFailure::Fdo { name, message, text } => {
            let n = name.as_str();
            if str_eq(n, "org.freedesktop.DBus.Error.NotSupported") {
                ProviderError::Unsupported(message.clone())
            } else if str_eq(n, "org.freedesktop.DBus.Error.AccessDenied") {
                ProviderError::PermissionDenied(message.clone())
            } else if str_eq(n, "org.freedesktop.DBus.Error.InvalidArgs") {
                ProviderError::InvalidRequest(message.clone())
            } else {
                ProviderError::Dbus(text.clone())
            }
        },
        _ => ProviderError::Dbus(failure.text_string()),
    }
}

/// The outcome of a factory reset from Hardware1's reply: success only when
/// Hardware1 confirms the requested profile after its own verification.
pub open spec fn reset_outcome(profile: AsusdFanProfile, reply: Result<u32, DbusFailure>) -> Result<
    ApplyResult,
    ProviderErrorView,
> {
    match reply {
        Err(f) => Err(hardware1_error(f)),
        Ok(confirmed) => if confirmed != profile_wire(profile) {
            Err(
                ProviderErrorView::Internal(
                    "Hardware1 confirmed another fan profile after factory reset: requested="@ + decimal(
                        profile_wire(profile) as nat,
                    ) + ", confirmed="@ + decimal(confirmed as nat),
                ),
            )
        } else {
            Ok(ApplyResult::Applied)
        },
    }
}

/// Direct Hardware1 fan-default provider; the host holds the connection.
#[derive(Debug, Clone, Copy, PartialEq, Eq)]
pub struct Hardware1FanDefaultsProvider;

impl Hardware1FanDefaultsProvider {
    /// The provider.
    pub fn new() -> (p: Self) {
        Hardware1FanDefaultsProvider
    }

    /// Judge Hardware1's reply to `ResetFanCurvesToDefaults(profile)`.
    pub fn reset_fan_curves_to_defaults(&self, profile: AsusdFanProfile, reply: &Result<u32, DbusFailure>) -> (r: Result<
        ApplyResult,
        ProviderError,
    >)
        ensures
            match reset_outcome(profile, *reply) {
                Ok(a) => r == Ok::<ApplyResult, ProviderError>(a),
                Err(e) => r matches Err(err) && err@ == e,
            },
    {
        match reply {
            Err(f) => Err(dbus_error(f)),
            Ok(confirmed) => {
                let requested = profile.wire();
                if *confirmed != requested {
                    let mut m = concat2(
                        "Hardware1 confirmed another fan profile after factory reset: requested=",
                        to_decimal(requested as u64).as_str(),
                    );
                    m.append(", confirmed=");
                    let d = to_decimal(*confirmed as u64);
                    m.append(d.as_str());
                    return Err(ProviderError::Internal(m));
                }
                Ok(ApplyResult::Applied)
            },
        }
    }
}

/// The mock provider does not model lossless ASUS factory fan defaults.
pub fn mock_reset_fan_curves_to_defaults(profile: AsusdFanProfile) -> (r: Result<ApplyResult, ProviderError>)
    ensures
        r matches Err(e) && e@ == ProviderErrorView::Unsupported(
            "mock backend does not model lossless ASUS factory fan defaults"@,
        ),
{
    Err(ProviderError::Unsupported("mock backend does not model lossless ASUS factory fan defaults".to_owned()))
}

} // verus!
