use orbis_providers::wlr_output_head::{
    DisplayRefreshTargetId, WlrHeadEvidenceBlock, WlrOutputHeadEvent, WlrOutputHeadState, WlrOutputModeKey,
};

fn target() -> DisplayRefreshTargetId {
    DisplayRefreshTargetId::new("wlr-head:opaque-3")
}

fn complete_head() -> WlrOutputHeadState {
    let mut head = WlrOutputHeadState::new(target());
    for event in [
        WlrOutputHeadEvent::Name("eDP-1".into()),
        WlrOutputHeadEvent::Make("BOE".into()),
        WlrOutputHeadEvent::Model("NE160QDM".into()),
        WlrOutputHeadEvent::SerialNumber("1234".into()),
        WlrOutputHeadEvent::PhysicalSize { width: 344, height: 215 },
        WlrOutputHeadEvent::Enabled(true),
        WlrOutputHeadEvent::Mode {
            key: WlrOutputModeKey::new("m60"),
            width: 2560,
            height: 1600,
            refresh_mhz: 59_940,
            preferred: false,
        },
        WlrOutputHeadEvent::Mode {
            key: WlrOutputModeKey::new("m120"),
            width: 2560,
            height: 1600,
            refresh_mhz: 119_880,
            preferred: true,
        },
        WlrOutputHeadEvent::CurrentMode(Some(WlrOutputModeKey::new("m120"))),
    ] {
        head.apply(event);
    }
    head
}

#[test]
fn identity_uses_sink_metadata_not_head_name() {
    let mut first = complete_head();
    let first_identity = first.identity_evidence();
    first.apply(WlrOutputHeadEvent::Name("totally-different-runtime-name".into()));
    assert_eq!(first.identity_evidence(), first_identity);
    assert_eq!(first.name(), Some("totally-different-runtime-name"));
}

#[test]
fn incomplete_serial_never_produces_complete_sink_identity() {
    let mut head = complete_head();
    head.apply(WlrOutputHeadEvent::SerialNumber("".into()));
    assert!(head.identity_evidence().sink.is_none());
}

#[test]
fn exact_fractional_modes_feed_product_evidence_losslessly() {
    let head = complete_head();
    let evidence = head.refresh_evidence().unwrap();
    assert_eq!(evidence.current.refresh.get(), 119_880);
    assert_eq!(evidence.available.len(), 1);
    assert_eq!(evidence.available[0].refresh.get(), 59_940);
}

#[test]
fn disabled_or_unknown_current_mode_blocks_refresh_evidence() {
    let mut head = complete_head();
    head.apply(WlrOutputHeadEvent::Enabled(false));
    assert_eq!(head.refresh_evidence(), Err(WlrHeadEvidenceBlock::Disabled));
    head.apply(WlrOutputHeadEvent::Enabled(true));
    head.apply(WlrOutputHeadEvent::CurrentMode(None));
    assert_eq!(head.refresh_evidence(), Err(WlrHeadEvidenceBlock::CurrentModeUnknown));
}

#[test]
fn removed_current_mode_invalidates_evidence() {
    let mut head = complete_head();
    head.apply(WlrOutputHeadEvent::ModeRemoved(WlrOutputModeKey::new("m120")));
    assert_eq!(head.refresh_evidence(), Err(WlrHeadEvidenceBlock::CurrentModeUnknown));
}

#[test]
fn source_contains_no_configuration_surface() {
    // A head only accumulates compositor evidence: events change its
    // metadata, modes and current-mode key, and what it hands out is identity
    // and mode evidence, never a configuration request.
    let mut head = complete_head();
    assert!(head.enabled());
    assert_eq!(head.target().as_str(), "wlr-head:opaque-3");
    head.apply(WlrOutputHeadEvent::CurrentMode(Some(WlrOutputModeKey::new("missing"))));
    assert_eq!(head.refresh_evidence(), Err(WlrHeadEvidenceBlock::CurrentModeNotAdvertised));
    let identity = head.identity_evidence();
    assert_eq!(identity.target.as_str(), "wlr-head:opaque-3");
    let sink = identity.sink.unwrap();
    assert_eq!((sink.manufacturer(), sink.model(), sink.serial()), ("BOE", "NE160QDM", "1234"));
}

#[test]
fn zero_refresh_current_mode_is_unknown_refresh() {
    let mut head = complete_head();
    head.apply(WlrOutputHeadEvent::Mode {
        key: WlrOutputModeKey::new("m120"),
        width: 2560,
        height: 1600,
        refresh_mhz: 0,
        preferred: true,
    });
    assert_eq!(head.refresh_evidence(), Err(WlrHeadEvidenceBlock::CurrentRefreshUnknown));
}

#[test]
fn preferred_modes_are_listed_in_key_order_and_never_override_current() {
    let mut head = complete_head();
    head.apply(WlrOutputHeadEvent::Mode {
        key: WlrOutputModeKey::new("a144"),
        width: 2560,
        height: 1600,
        refresh_mhz: 144_000,
        preferred: true,
    });
    let preferred: Vec<u32> = head.preferred_modes().iter().map(|m| m.refresh.get()).collect();
    assert_eq!(preferred, vec![144_000, 119_880]);
    let evidence = head.refresh_evidence().unwrap();
    assert_eq!(evidence.current.refresh.get(), 119_880);
    let available: Vec<u32> = evidence.available.iter().map(|m| m.refresh.get()).collect();
    assert_eq!(available, vec![144_000, 59_940]);
}

#[test]
fn blank_metadata_is_absent_and_zero_size_is_unknown() {
    let mut head = complete_head();
    head.apply(WlrOutputHeadEvent::Make("   ".into()));
    head.apply(WlrOutputHeadEvent::PhysicalSize { width: 0, height: 215 });
    let identity = head.identity_evidence();
    assert!(identity.sink.is_none());
    assert!(identity.physical_size.is_none());
}
