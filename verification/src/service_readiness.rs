//! Readiness evidence from already-observed service diagnostics.
//!
//! No D-Bus I/O happens here; the observed diagnostics are the only source,
//! so service discovery has one source of truth.
use vstd::prelude::*;
use vstd::string::*;

use crate::readiness::{FeatureId, PermissionState, ReadinessItem, ReadinessState};
use crate::service_presence::{DiagnosticsServiceId, ServiceAvailability, ServiceBusScope, ServiceDiagnostics};

verus! {

/// `Debug` name of a service.
pub open spec fn service_debug(s: DiagnosticsServiceId) -> Seq<char> {
    match s {
        DiagnosticsServiceId::OrbisHardwared => "OrbisHardwared"@,
        DiagnosticsServiceId::OrbisSessiond => "OrbisSessiond"@,
        DiagnosticsServiceId::Asusd => "Asusd"@,
        DiagnosticsServiceId::Supergfxd => "Supergfxd"@,
    }
}

/// `Debug` name of a bus scope.
pub open spec fn bus_debug(b: ServiceBusScope) -> Seq<char> {
    match b {
        ServiceBusScope::System => "System"@,
        ServiceBusScope::Session => "Session"@,
    }
}

/// `Debug` name of an availability.
pub open spec fn availability_debug(a: ServiceAvailability) -> Seq<char> {
    match a {
        ServiceAvailability::Running => "Running"@,
        ServiceAvailability::Activatable => "Activatable"@,
        ServiceAvailability::Unavailable => "Unavailable"@,
        ServiceAvailability::PermissionDenied => "PermissionDenied"@,
        ServiceAvailability::Unknown => "Unknown"@,
    }
}

fn service_name(s: DiagnosticsServiceId) -> (t: &'static str)
    ensures
        t@ == service_debug(s),
{
    match s {
        DiagnosticsServiceId::OrbisHardwared => "OrbisHardwared",
        DiagnosticsServiceId::OrbisSessiond => "OrbisSessiond",
        DiagnosticsServiceId::Asusd => "Asusd",
        DiagnosticsServiceId::Supergfxd => "Supergfxd",
    }
}

fn bus_name(b: ServiceBusScope) -> (t: &'static str)
    ensures
        t@ == bus_debug(b),
{
    match b {
        ServiceBusScope::System => "System",
        ServiceBusScope::Session => "Session",
    }
}

fn availability_name(a: ServiceAvailability) -> (t: &'static str)
    ensures
        t@ == availability_debug(a),
{
    match a {
        ServiceAvailability::Running => "Running",
        ServiceAvailability::Activatable => "Activatable",
        ServiceAvailability::Unavailable => "Unavailable",
        ServiceAvailability::PermissionDenied => "PermissionDenied",
        ServiceAvailability::Unknown => "Unknown",
    }
}

/// State and permission of a service availability: running is ready; an
/// activatable service is inactive (diagnostics never start it); an
/// unavailable one is not available; a refused query keeps the dependency
/// unknown with the permission denied; an unknown answer is unknown on both.
pub open spec fn service_readiness(a: ServiceAvailability) -> (ReadinessState, PermissionState) {
    match a {
        ServiceAvailability::Running => (ReadinessState::Ready, PermissionState::NotRequired),
        ServiceAvailability::Activatable => (ReadinessState::Inactive, PermissionState::NotRequired),
        ServiceAvailability::Unavailable => (ReadinessState::NotAvailable, PermissionState::NotRequired),
        ServiceAvailability::PermissionDenied => (ReadinessState::Unknown, PermissionState::Denied),
        ServiceAvailability::Unknown => (ReadinessState::Unknown, PermissionState::Unknown),
    }
}

/// Readiness evidence of one observed service.
pub fn readiness_from_service_diagnostics(
    diagnostics: &ServiceDiagnostics,
    id: &str,
    required_for: Vec<FeatureId>,
) -> (item: ReadinessItem)
    ensures
        item.id@ == id@,
        (item.state, item.permission) == service_readiness(diagnostics.availability),
        item.required_for == required_for,
        item.evidence@.len() == 1,
        item.evidence@[0]@ == "service="@ + service_debug(diagnostics.service) + " bus="@ + bus_debug(
            diagnostics.bus,
        ) + " availability="@ + availability_debug(diagnostics.availability),
{
    let (state, permission) = match diagnostics.availability {
        ServiceAvailability::Running => (ReadinessState::Ready, PermissionState::NotRequired),
        ServiceAvailability::Activatable => (ReadinessState::Inactive, PermissionState::NotRequired),
        ServiceAvailability::Unavailable => (ReadinessState::NotAvailable, PermissionState::NotRequired),
        ServiceAvailability::PermissionDenied => (ReadinessState::Unknown, PermissionState::Denied),
        ServiceAvailability::Unknown => (ReadinessState::Unknown, PermissionState::Unknown),
    };
    let mut line = "service=".to_owned();
    line.append(service_name(diagnostics.service));
    line.append(" bus=");
    line.append(bus_name(diagnostics.bus));
    line.append(" availability=");
    line.append(availability_name(diagnostics.availability));
    let mut evidence: Vec<String> = Vec::new();
    evidence.push(line);
    ReadinessItem { id: id.to_owned(), state, required_for, evidence, permission }
}

} // verus!
