//! Read-only D-Bus service-presence diagnostics.
//!
//! Presence is checked only through the bus daemon: `NameHasOwner`, and,
//! when no owner exists, `ListActivatableNames`. `StartServiceByName` is
//! never used, so a diagnostic never activates a stopped service. The host
//! runs the two queries; this module decides.
use vstd::prelude::*;
use vstd::string::*;

use crate::error::DbusFailure;
use crate::text::str_eq;

verus! {

/// Well-known name of the privileged Hardware1 service.
pub const ORBIS_HARDWARE_BUS_NAME: &'static str = "io.github.orbiscontrol.Hardware";

/// Well-known name of the Session1 service.
pub const ORBIS_SESSION_BUS_NAME: &'static str = "io.github.orbiscontrol.Session";

/// Well-known name of asusd.
pub const ASUSD_BUS_NAME: &'static str = "xyz.ljones.Asusd";

/// Well-known name of supergfxd.
pub const SUPERGFXD_BUS_NAME: &'static str = "org.supergfxctl.Daemon";

/// Services that diagnostics observe.
#[derive(Debug, Clone, Copy, PartialEq, Eq, Structural)]
pub enum DiagnosticsServiceId {
    /// Hardware1 daemon.
    OrbisHardwared,
    /// Session1 daemon.
    OrbisSessiond,
    /// asusd.
    Asusd,
    /// supergfxd.
    Supergfxd,
}

/// D-Bus bus scope.
#[derive(Debug, Clone, Copy, PartialEq, Eq, Structural)]
pub enum ServiceBusScope {
    /// System bus.
    System,
    /// Session bus.
    Session,
}

/// How much a service matters, supplied by the collector.
#[derive(Debug, Clone, Copy, PartialEq, Eq, Structural)]
pub enum ServiceCriticality {
    /// Needed by the core read path.
    CoreReadPath,
    /// Needed by one capability.
    CapabilityLocal,
    /// Optional.
    Optional,
}

/// Observed availability of a service.
#[derive(Debug, Clone, Copy, PartialEq, Eq, Structural)]
pub enum ServiceAvailability {
    /// The name has an owner.
    Running,
    /// No owner, but the bus can activate it.
    Activatable,
    /// No owner and not activatable.
    Unavailable,
    /// A query was refused.
    PermissionDenied,
    /// A query failed otherwise.
    Unknown,
}

/// One observed service.
#[derive(Debug, Clone, Copy, PartialEq, Eq)]
pub struct ServiceDiagnostics {
    /// Service.
    pub service: DiagnosticsServiceId,
    /// Bus.
    pub bus: ServiceBusScope,
    /// Availability.
    pub availability: ServiceAvailability,
    /// Criticality, as the collector supplied it.
    pub criticality: ServiceCriticality,
    /// When it was checked, as the collector supplied it.
    pub checked_at: Option<std::time::SystemTime>,
}

/// One fixed presence-query target.
#[derive(Debug, Clone, Copy, PartialEq, Eq)]
pub struct ServicePresenceTarget {
    service: DiagnosticsServiceId,
    bus: ServiceBusScope,
    bus_name: &'static str,
}

/// The fixed target of each service: its bus and exact well-known name.
pub open spec fn target_of(service: DiagnosticsServiceId) -> (ServiceBusScope, Seq<char>) {
    match service {
        DiagnosticsServiceId::OrbisHardwared => (ServiceBusScope::System, ORBIS_HARDWARE_BUS_NAME@),
        DiagnosticsServiceId::OrbisSessiond => (ServiceBusScope::Session, ORBIS_SESSION_BUS_NAME@),
        DiagnosticsServiceId::Asusd => (ServiceBusScope::System, ASUSD_BUS_NAME@),
        DiagnosticsServiceId::Supergfxd => (ServiceBusScope::System, SUPERGFXD_BUS_NAME@),
    }
}

impl ServicePresenceTarget {
    /// Whether this target is the fixed one of its service.
    pub closed spec fn fixed(self) -> bool {
        target_of(self.service) == (self.bus, self.bus_name@)
    }

    /// The service's spec identity.
    pub closed spec fn service_spec(self) -> DiagnosticsServiceId {
        self.service
    }

    /// The fixed target of a service.
    pub fn of(service: DiagnosticsServiceId) -> (t: Self)
        ensures
            t.fixed(),
            t.service_spec() == service,
    {
        match service {
            DiagnosticsServiceId::OrbisHardwared => ServicePresenceTarget {
                service,
                bus: ServiceBusScope::System,
                bus_name: ORBIS_HARDWARE_BUS_NAME,
            },
            DiagnosticsServiceId::OrbisSessiond => ServicePresenceTarget {
                service,
                bus: ServiceBusScope::Session,
                bus_name: ORBIS_SESSION_BUS_NAME,
            },
            DiagnosticsServiceId::Asusd => ServicePresenceTarget {
                service,
                bus: ServiceBusScope::System,
                bus_name: ASUSD_BUS_NAME,
            },
            DiagnosticsServiceId::Supergfxd => ServicePresenceTarget {
                service,
                bus: ServiceBusScope::System,
                bus_name: SUPERGFXD_BUS_NAME,
            },
        }
    }

    /// The service.
    pub fn service(self) -> (s: DiagnosticsServiceId)
        ensures
            s == self.service_spec(),
    {
        self.service
    }

    /// The bus on which the name is checked.
    pub fn bus(self) -> (b: ServiceBusScope)
        requires
            self.fixed(),
        ensures
            b == target_of(self.service_spec()).0,
    {
        self.bus
    }

    /// The exact well-known name.
    pub fn bus_name(self) -> (n: &'static str)
        requires
            self.fixed(),
        ensures
            n@ == target_of(self.service_spec()).1,
    {
        self.bus_name
    }
}

/// Why a bus query failed.
#[derive(Debug, Clone, Copy, PartialEq, Eq, Structural)]
pub enum PresenceQueryError {
    /// The bus refused the query.
    PermissionDenied,
    /// Any other failure.
    Unknown,
}

/// How a failed bus query is classified: only the standard `AccessDenied`
/// reply is a permission denial.
pub open spec fn presence_error_of(f: DbusFailure) -> PresenceQueryError {
    match f {
        DbusFailure::Fdo { name, .. } => if name@ == "org.freedesktop.DBus.Error.AccessDenied"@ {
            PresenceQueryError::PermissionDenied
        } else {
            PresenceQueryError::Unknown
        },
        _ => PresenceQueryError::Unknown,
    }
}

/// Classify a failed bus query.
pub fn map_fdo_error(failure: &DbusFailure) -> (e: PresenceQueryError)
    ensures
        e == presence_error_of(*failure),
{
    match failure {
        DbusFailure::Fdo { name, .. } => {
            if str_eq(name.as_str(), "org.freedesktop.DBus.Error.AccessDenied") {
                PresenceQueryError::PermissionDenied
            } else {
                PresenceQueryError::Unknown
            }
        },
        _ => PresenceQueryError::Unknown,
    }
}

/// Whether the activatable names must be queried: only when the first query
/// proved there is no owner.
pub open spec fn needs_activatable_query(owner: Result<bool, PresenceQueryError>) -> bool {
    owner == Ok::<bool, PresenceQueryError>(false)
}

/// Availability from the owner query and, when it was made, the activatable
/// names query.
pub open spec fn availability_of(
    bus_name: Seq<char>,
    owner: Result<bool, PresenceQueryError>,
    activatable: Result<Seq<Seq<char>>, PresenceQueryError>,
) -> ServiceAvailability {
    match owner {
        Ok(true) => ServiceAvailability::Running,
        Ok(false) => match activatable {
            Ok(names) => if names.contains(bus_name) {
                ServiceAvailability::Activatable
            } else {
                ServiceAvailability::Unavailable
            },
            Err(PresenceQueryError::PermissionDenied) => ServiceAvailability::PermissionDenied,
            Err(PresenceQueryError::Unknown) => ServiceAvailability::Unknown,
        },
        Err(PresenceQueryError::PermissionDenied) => ServiceAvailability::PermissionDenied,
        Err(PresenceQueryError::Unknown) => ServiceAvailability::Unknown,
    }
}

/// Whether the host must also list activatable names after `owner`.
pub fn activatable_query_needed(owner: Result<bool, PresenceQueryError>) -> (b: bool)
    ensures
        b == needs_activatable_query(owner),
{
    match owner {
        Ok(false) => true,
        _ => false,
    }
}

fn names_contain(names: &Vec<String>, name: &str) -> (b: bool)
    ensures
        b == names@.map_values(|s: String| s@).contains(name@),
{
    let ghost ns = names@.map_values(|s: String| s@);
    let mut i: usize = 0;
    while i < names.len()
        invariant
            0 <= i <= names@.len(),
            ns == names@.map_values(|s: String| s@),
            forall|j: int| 0 <= j < i ==> ns[j] != name@,
        decreases names@.len() - i,
    {
        if str_eq(names[i].as_str(), name) {
            assert(ns[i as int] == name@);
            return true;
        }
        i = i + 1;
    }
    false
}

/// Observe one service from the query answers (the activatable names only
/// when the owner query found none), without inferring support or
/// criticality.
pub fn check_with_query(
    target: ServicePresenceTarget,
    owner: Result<bool, PresenceQueryError>,
    activatable: Result<Vec<String>, PresenceQueryError>,
    criticality: ServiceCriticality,
    checked_at: Option<std::time::SystemTime>,
) -> (d: ServiceDiagnostics)
    requires
        target.fixed(),
    ensures
        d.service == target.service_spec(),
        d.bus == target_of(target.service_spec()).0,
        d.availability == availability_of(
            target_of(target.service_spec()).1,
            owner,
            match activatable {
                Ok(v) => Ok(v@.map_values(|s: String| s@)),
                Err(e) => Err(e),
            },
        ),
        d.criticality == criticality,
        d.checked_at == checked_at,
{
    let availability = match owner {
        Ok(true) => ServiceAvailability::Running,
        Ok(false) => match &activatable {
            Ok(names) => if names_contain(names, target.bus_name()) {
                ServiceAvailability::Activatable
            } else {
                ServiceAvailability::Unavailable
            },
            Err(PresenceQueryError::PermissionDenied) => ServiceAvailability::PermissionDenied,
            Err(PresenceQueryError::Unknown) => ServiceAvailability::Unknown,
        },
        Err(PresenceQueryError::PermissionDenied) => ServiceAvailability::PermissionDenied,
        Err(PresenceQueryError::Unknown) => ServiceAvailability::Unknown,
    };
    ServiceDiagnostics { service: target.service(), bus: target.bus(), availability, criticality, checked_at }
}

} // verus!
