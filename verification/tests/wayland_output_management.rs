use orbis_providers::error::ProviderError;
use orbis_providers::wayland_output_management::{
    classify_wlr_output_management_globals, WaylandRegistryGlobal,
    WLR_OUTPUT_MANAGER_CLIENT_MAX_VERSION, WLR_OUTPUT_MANAGER_INTERFACE,
};

fn global(interface: &str, version: u32) -> WaylandRegistryGlobal {
    WaylandRegistryGlobal { interface: interface.into(), version }
}

#[test]
fn missing_manager_is_explicitly_unsupported() {
    assert!(matches!(
        classify_wlr_output_management_globals(&vec![global("wl_output", 4)]),
        Err(ProviderError::Unsupported(_))
    ));
}

#[test]
fn advertised_version_is_preserved_and_compatible_version_is_bounded() {
    let support = classify_wlr_output_management_globals(&vec![
        global("wl_output", 4),
        global(WLR_OUTPUT_MANAGER_INTERFACE, 7),
    ])
    .unwrap();
    assert_eq!(support.advertised_version(), 7);
    assert_eq!(support.compatible_version(), 4);
}

#[test]
fn older_nonzero_manager_version_remains_transport_evidence() {
    let support =
        classify_wlr_output_management_globals(&vec![global(WLR_OUTPUT_MANAGER_INTERFACE, 2)]).unwrap();
    assert_eq!(support.advertised_version(), 2);
    assert_eq!(support.compatible_version(), 2);
}

#[test]
fn zero_version_fails_closed() {
    assert!(matches!(
        classify_wlr_output_management_globals(&vec![global(WLR_OUTPUT_MANAGER_INTERFACE, 0)]),
        Err(ProviderError::Internal(_))
    ));
}

#[test]
fn duplicate_manager_globals_are_not_selected_arbitrarily() {
    assert!(matches!(
        classify_wlr_output_management_globals(&vec![
            global(WLR_OUTPUT_MANAGER_INTERFACE, 4),
            global(WLR_OUTPUT_MANAGER_INTERFACE, 4),
        ]),
        Err(ProviderError::Internal(_))
    ));
}

#[test]
fn production_probe_has_no_configuration_or_process_surface() {
    // The probe only classifies registry globals: the interface it looks for
    // is the manager global, the version it would use is bounded by the
    // client maximum.
    assert_eq!(WLR_OUTPUT_MANAGER_INTERFACE, "zwlr_output_manager_v1");
    assert_eq!(WLR_OUTPUT_MANAGER_CLIENT_MAX_VERSION, 4);
    let support = classify_wlr_output_management_globals(&vec![
        global("wl_output", 4),
        global("wl_seat", 9),
        global(WLR_OUTPUT_MANAGER_INTERFACE, 4),
    ])
    .unwrap();
    assert_eq!(support.advertised_version(), 4);
    assert_eq!(support.compatible_version(), 4);
}

#[test]
fn manager_version_above_client_maximum_is_capped() {
    let support =
        classify_wlr_output_management_globals(&vec![global(WLR_OUTPUT_MANAGER_INTERFACE, 5)]).unwrap();
    assert_eq!(support.advertised_version(), 5);
    assert_eq!(support.compatible_version(), WLR_OUTPUT_MANAGER_CLIENT_MAX_VERSION);
}

#[test]
fn no_globals_at_all_is_unsupported() {
    assert!(matches!(classify_wlr_output_management_globals(&vec![]), Err(ProviderError::Unsupported(_))));
}
