use orbis_providers::error::{DbusFailure, IoErrorKind, IoFailure, OperationId, ProviderError, ValidationResult};

#[test]
fn operation_id_unique() {
    assert_ne!(OperationId::new(), OperationId::new());
}

#[test]
fn validation_helpers() {
    assert!(ValidationResult::ok().into_result().is_ok());
    assert!(ValidationResult::invalid("nope").into_result().is_err());
}

#[test]
fn invalid_validation_becomes_invalid_request_with_its_reason() {
    assert_eq!(
        ValidationResult::invalid("nope").into_result(),
        Err(ProviderError::InvalidRequest("nope".into()))
    );
}

#[test]
fn operation_id_has_op_prefix_and_hex_suffix() {
    let id = OperationId::new();
    assert!(id.0.starts_with("op-"));
    assert!(id.0.len() > 3);
    assert!(id.0[3..].chars().all(|c| c.is_ascii_hexdigit() && !c.is_ascii_uppercase()));
}

#[test]
fn copies_keep_every_field() {
    let f = IoFailure { kind: IoErrorKind::Other, raw_os_error: Some(5), message: "eio".into() };
    assert_eq!(f.clone_failure(), f);
    let e = ProviderError::Io(f.clone());
    assert_eq!(e.clone_error(), e);
    let d = DbusFailure::Fdo { name: "n".into(), message: "m".into(), text: "t".into() };
    assert_eq!(d.text_string(), "t");
}

#[test]
fn operation_id_from_parts_carries_clock_and_process() {
    let id = OperationId::from_parts(0x1a2b, 42);
    assert_eq!(id.0, "op-1a2b-42");
    assert_ne!(OperationId::from_parts(0x1a2b, 42), OperationId::from_parts(0x1a2b, 43));
}
