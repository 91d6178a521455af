use orbis_providers::drm_kms_identity::{
    connector_type, parse_edid_sink_identity, select_connector_dir, DrmCardReading, DrmConnectorInfo,
    DrmConnectorReading, DrmConnectorTypeEvidence, DrmInterface, LinuxDrmDisplayIdentitySource, SysfsConnectorEntry,
    primary_card_names, map_open_error, map_root_error, map_edid_error,
};
use orbis_providers::error::{IoErrorKind, IoFailure, ProviderError};

fn test_edid() -> Vec<u8> {
    let mut bytes = vec![0u8; 128];
    bytes[..8].copy_from_slice(&[0x00, 0xff, 0xff, 0xff, 0xff, 0xff, 0xff, 0x00]);
    let vendor = (2u16 << 10) | (15u16 << 5) | 5u16;
    bytes[8..10].copy_from_slice(&vendor.to_be_bytes());
    let model = b"NE160QDM\n    ";
    bytes[54..59].copy_from_slice(&[0, 0, 0, 0xfc, 0]);
    bytes[59..72].copy_from_slice(model);
    let serial = b"1234\n        ";
    bytes[72..77].copy_from_slice(&[0, 0, 0, 0xff, 0]);
    bytes[77..90].copy_from_slice(serial);
    let sum = bytes.iter().take(127).fold(0u8, |acc, byte| acc.wrapping_add(*byte));
    bytes[127] = 0u8.wrapping_sub(sum);
    bytes
}

fn io_failure_of(kind: IoErrorKind) -> IoFailure {
    IoFailure { kind, raw_os_error: None, message: "failure".into() }
}

#[test]
fn strict_edid_parser_builds_complete_identity() {
    let identity = parse_edid_sink_identity(&test_edid()).unwrap();
    assert_eq!(identity.manufacturer(), "BOE");
    assert_eq!(identity.model(), "NE160QDM");
    assert_eq!(identity.serial(), "1234");
}

#[test]
fn missing_serial_does_not_fall_back_to_guess() {
    let mut bytes = test_edid();
    bytes[75] = 0xfe;
    let sum = bytes.iter().take(127).fold(0u8, |acc, byte| acc.wrapping_add(*byte));
    bytes[127] = 0u8.wrapping_sub(sum);
    assert!(matches!(parse_edid_sink_identity(&bytes), Err(ProviderError::Unsupported(_))));
}

#[test]
fn edid_defects_are_internal_errors() {
    assert_eq!(
        parse_edid_sink_identity(&vec![0u8; 127]),
        Err(ProviderError::Internal("EDID base block is truncated".into()))
    );
    let mut bad_header = test_edid();
    bad_header[0] = 1;
    bad_header[127] = bad_header[127].wrapping_sub(1);
    assert_eq!(parse_edid_sink_identity(&bad_header), Err(ProviderError::Internal("EDID header is invalid".into())));
    let mut bad_sum = test_edid();
    bad_sum[127] = bad_sum[127].wrapping_add(1);
    assert_eq!(parse_edid_sink_identity(&bad_sum), Err(ProviderError::Internal("EDID base checksum is invalid".into())));
    let mut bad_vendor = test_edid();
    bad_vendor[8] = 0;
    bad_vendor[9] = 0;
    let sum = bad_vendor.iter().take(127).fold(0u8, |acc, byte| acc.wrapping_add(*byte));
    bad_vendor[127] = 0u8.wrapping_sub(sum);
    assert_eq!(
        parse_edid_sink_identity(&bad_vendor),
        Err(ProviderError::Internal("EDID manufacturer code is invalid".into()))
    );
}

#[test]
fn interface_mapping_uses_typed_drm_metadata() {
    assert_eq!(connector_type(DrmInterface::EmbeddedDisplayPort), DrmConnectorTypeEvidence::Edp);
    assert_eq!(connector_type(DrmInterface::LVDS), DrmConnectorTypeEvidence::Lvds);
    assert_eq!(connector_type(DrmInterface::DSI), DrmConnectorTypeEvidence::Dsi);
    assert_eq!(connector_type(DrmInterface::HDMIA), DrmConnectorTypeEvidence::HdmiA);
    assert_eq!(connector_type(DrmInterface::Writeback), DrmConnectorTypeEvidence::Virtual);
    assert_eq!(connector_type(DrmInterface::VGA), DrmConnectorTypeEvidence::Other);
}

#[test]
fn source_has_no_drm_mutation_or_connector_name_role_heuristic() {
    // Connector type comes only from the typed interface: a connector whose
    // sysfs directory is called `card1-eDP-1` but reports HDMI-A is HDMI-A.
    let source = LinuxDrmDisplayIdentitySource::new();
    let cards = vec![DrmCardReading {
        path: "/dev/dri/card1".into(),
        open: Ok(Ok(vec![DrmConnectorReading {
            connector_id: 77,
            info: Ok(DrmConnectorInfo {
                connected: true,
                interface: DrmInterface::HDMIA,
                size: None,
                edid: Some(Ok(test_edid())),
            }),
        }])),
    }];
    let evidence = source.read_connectors_blocking(&cards).unwrap();
    assert_eq!(evidence.len(), 1);
    assert_eq!(evidence[0].connector_type, DrmConnectorTypeEvidence::HdmiA);
    assert_eq!(evidence[0].connector_id, 77);
    // EDID is correlated by the numeric connector id, not by the name.
    let entries = vec![
        SysfsConnectorEntry { name: "card1-eDP-1".into(), connector_id: Some("76\n".into()) },
        SysfsConnectorEntry { name: "card1-HDMI-A-1".into(), connector_id: Some("77\n".into()) },
    ];
    assert_eq!(select_connector_dir("card1", 77, &entries).unwrap(), "card1-HDMI-A-1");
}

#[test]
fn test_constructor_keeps_roots_injectable_without_production_generic_paths() {
    let source = LinuxDrmDisplayIdentitySource::with_roots("/tmp/dev", "/tmp/sys");
    assert_eq!(source.dev_root(), "/tmp/dev");
    assert_eq!(source.sysfs_root(), "/tmp/sys");
    let production = LinuxDrmDisplayIdentitySource::default();
    assert_eq!(production.dev_root(), "/dev/dri");
    assert_eq!(production.sysfs_root(), "/sys/class/drm");
}

#[test]
fn connector_directory_must_be_unique() {
    let none: Vec<SysfsConnectorEntry> = vec![SysfsConnectorEntry { name: "card0-DP-1".into(), connector_id: Some("5".into()) }];
    assert_eq!(
        select_connector_dir("card1", 5, &none),
        Err(ProviderError::BackendUnavailable("DRM sysfs connector_id 5 not found for card1".into()))
    );
    let twice = vec![
        SysfsConnectorEntry { name: "card1-DP-1".into(), connector_id: Some("5".into()) },
        SysfsConnectorEntry { name: "card1-DP-2".into(), connector_id: Some(" 5 ".into()) },
    ];
    assert_eq!(
        select_connector_dir("card1", 5, &twice),
        Err(ProviderError::Internal("DRM sysfs connector_id 5 is ambiguous for card1".into()))
    );
    let unreadable = vec![SysfsConnectorEntry { name: "card1-DP-1".into(), connector_id: None }];
    assert!(select_connector_dir("card1", 5, &unreadable).is_err());
}

#[test]
fn primary_cards_are_numbered_card_nodes_in_order() {
    let names = primary_card_names(&vec![
        "renderD128".into(),
        "card1".into(),
        "card0".into(),
        "card".into(),
        "card0-eDP-1".into(),
        "by-path".into(),
    ]);
    assert_eq!(names, vec!["card0".to_string(), "card1".to_string()]);
}

#[test]
fn snapshot_failures_are_classified() {
    let source = LinuxDrmDisplayIdentitySource::new();
    assert!(matches!(source.read_connectors_blocking(&vec![]), Err(ProviderError::Unsupported(_))));
    let denied = vec![DrmCardReading {
        path: "/dev/dri/card0".into(),
        open: Err(map_open_error("/dev/dri/card0", io_failure_of(IoErrorKind::PermissionDenied))),
    }];
    assert_eq!(
        source.read_connectors_blocking(&denied),
        Err(ProviderError::PermissionDenied("DRM card read denied: /dev/dri/card0".into()))
    );
    let query_failed = vec![DrmCardReading { path: "/dev/dri/card0".into(), open: Ok(Err("EINVAL".into())) }];
    assert_eq!(
        source.read_connectors_blocking(&query_failed),
        Err(ProviderError::BackendUnavailable("DRM resource query failed for /dev/dri/card0: EINVAL".into()))
    );
    assert_eq!(
        map_root_error("/dev/dri", io_failure_of(IoErrorKind::NotFound)),
        ProviderError::Unsupported("DRM device root absent: /dev/dri".into())
    );
    assert_eq!(map_edid_error(io_failure_of(IoErrorKind::NotFound)), ProviderError::BackendUnavailable("DRM EDID unavailable".into()));
}

#[test]
fn disconnected_connector_has_no_sink_and_unreadable_cards_are_skipped() {
    let source = LinuxDrmDisplayIdentitySource::new();
    let cards = vec![
        DrmCardReading { path: "/dev/dri/card0".into(), open: Err(ProviderError::BackendUnavailable("gone".into())) },
        DrmCardReading {
            path: "/dev/dri/card1".into(),
            open: Ok(Ok(vec![DrmConnectorReading {
                connector_id: 3,
                info: Ok(DrmConnectorInfo {
                    connected: false,
                    interface: DrmInterface::EmbeddedDisplayPort,
                    size: Some((344, 215)),
                    edid: None,
                }),
            }])),
        },
    ];
    let evidence = source.read_connectors_blocking(&cards).unwrap();
    assert_eq!(evidence.len(), 1);
    assert!(evidence[0].sink.is_none());
    assert!(!evidence[0].connected);
    let size = evidence[0].physical_size.unwrap();
    assert_eq!((size.width_mm(), size.height_mm()), (344, 215));
}
