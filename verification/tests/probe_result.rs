use orbis_providers::error::{IoErrorKind, IoFailure, ProviderError};
use orbis_providers::probe_result::{classify_dbus_detail, ProbeClassification, ProbeContext, ProbeError};

#[test]
fn provider_errors_have_normative_probe_classification() {
    assert_eq!(
        ProviderError::Unsupported("not implemented".into())
            .into_probe_result(ProbeContext::EstablishedBackend)
            .unwrap()
            .classification,
        ProbeClassification::Unsupported
    );
    assert_eq!(
        ProviderError::PermissionDenied("polkit".into())
            .into_probe_result(ProbeContext::EstablishedBackend)
            .unwrap()
            .classification,
        ProbeClassification::PermissionDenied
    );
    assert_eq!(
        ProviderError::BackendUnavailable("service absent".into())
            .into_probe_result(ProbeContext::BackendDiscovery)
            .unwrap()
            .classification,
        ProbeClassification::BackendMissing
    );
    assert_eq!(
        ProviderError::BackendUnavailable("backend restarted".into())
            .into_probe_result(ProbeContext::EstablishedBackend)
            .unwrap()
            .classification,
        ProbeClassification::TemporarilyUnavailable
    );
    assert_eq!(
        ProviderError::Timeout("no reply".into())
            .into_probe_result(ProbeContext::EstablishedBackend)
            .unwrap()
            .classification,
        ProbeClassification::TemporarilyUnavailable
    );
}

#[test]
fn provider_dbus_error_mapping_preserves_distinctions() {
    assert_eq!(
        ProviderError::Dbus("org.freedesktop.DBus.Error.ServiceUnknown".into())
            .into_probe_result(ProbeContext::BackendDiscovery)
            .unwrap()
            .classification,
        ProbeClassification::BackendMissing
    );
    assert_eq!(
        ProviderError::Dbus("org.freedesktop.DBus.Error.AccessDenied".into())
            .into_probe_result(ProbeContext::EstablishedBackend)
            .unwrap()
            .classification,
        ProbeClassification::PermissionDenied
    );
    assert_eq!(
        ProviderError::Dbus("org.freedesktop.DBus.Error.UnknownMethod".into())
            .into_probe_result(ProbeContext::EstablishedBackend)
            .unwrap()
            .classification,
        ProbeClassification::Unsupported
    );
    assert_eq!(
        ProviderError::Dbus("unexpected D-Bus failure".into())
            .into_probe_result(ProbeContext::EstablishedBackend)
            .unwrap()
            .classification,
        ProbeClassification::Unknown
    );
}

#[test]
fn provider_internal_and_invalid_request_are_probe_errors() {
    assert!(matches!(
        ProviderError::Internal("invariant".into()).into_probe_result(ProbeContext::EstablishedBackend),
        Err(ProbeError::Internal(_))
    ));
    assert!(matches!(
        ProviderError::InvalidRequest("bad request".into()).into_probe_result(ProbeContext::EstablishedBackend),
        Err(ProbeError::ContractViolation(_))
    ));
}

#[test]
fn probe_details_are_kept_and_dbus_outage_depends_on_context() {
    let io = ProviderError::Io(IoFailure { kind: IoErrorKind::Other, raw_os_error: None, message: "disk gone".into() });
    let r = io.into_probe_result(ProbeContext::EstablishedBackend).unwrap();
    assert_eq!(r.classification, ProbeClassification::Unknown);
    assert_eq!(r.detail.as_deref(), Some("disk gone"));
    assert_eq!(
        classify_dbus_detail("org.freedesktop.DBus.Error.ServiceUnknown", ProbeContext::EstablishedBackend),
        ProbeClassification::TemporarilyUnavailable
    );
    assert_eq!(classify_dbus_detail("org.freedesktop.DBus.Error.NoReply", ProbeContext::BackendDiscovery), ProbeClassification::TemporarilyUnavailable);
    assert_eq!(
        ProviderError::Internal("x".into()).into_probe_result(ProbeContext::BackendDiscovery),
        Err(ProbeError::Internal("x".into()))
    );
}
