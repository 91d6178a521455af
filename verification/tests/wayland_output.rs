use orbis_providers::wayland_output::{
    DisplayMode, OutputEvent, RefreshMilliHz, WaylandCompositorOutputSource, WaylandOutputAggregator, WaylandState,
    WlOutputEvent, MAX_ROUNDTRIPS,
};
use orbis_providers::error::ProviderError;

fn mode(w: u32, h: u32, mhz: u32) -> DisplayMode {
    DisplayMode::new(w, h, RefreshMilliHz::new(mhz))
}

fn current(w: u32, h: u32, mhz: u32) -> OutputEvent {
    OutputEvent::Mode { current: true, preferred: false, width: w, height: h, refresh: mhz }
}

fn preferred(w: u32, h: u32, mhz: u32) -> OutputEvent {
    OutputEvent::Mode { current: false, preferred: true, width: w, height: h, refresh: mhz }
}

fn non_current(w: u32, h: u32, mhz: u32) -> OutputEvent {
    OutputEvent::Mode { current: false, preferred: false, width: w, height: h, refresh: mhz }
}

#[test]
fn one_output_one_current_mode() {
    let mut agg = WaylandOutputAggregator::new();
    agg.apply("eDP-1", &OutputEvent::Name("eDP-1".into()));
    agg.apply("eDP-1", &current(1920, 1080, 60000));
    agg.apply("eDP-1", &OutputEvent::Done);
    let snap = agg.snapshot();
    assert_eq!(snap.outputs.len(), 1);
    let out = &snap.outputs[0];
    assert_eq!(out.id.as_str(), "eDP-1");
    assert_eq!(out.current_mode.current, mode(1920, 1080, 60000));
    assert!(out.current_mode.preferred.is_none());
    assert!(out.available_modes.is_empty());
}

#[test]
fn exact_60000_mhz_preserved() {
    let mut agg = WaylandOutputAggregator::new();
    agg.apply("eDP-1", &current(1920, 1080, 60000));
    assert_eq!(agg.snapshot().outputs[0].current_mode.current.refresh.get(), 60000);
}

#[test]
fn fractional_59940_mhz_preserved_losslessly() {
    let mut agg = WaylandOutputAggregator::new();
    agg.apply("eDP-1", &current(1920, 1080, 59940));
    let refresh = agg.snapshot().outputs[0].current_mode.current.refresh.get();
    assert_eq!(refresh, 59940);
    assert_ne!(refresh, 60000);
}

#[test]
fn one_hundred_twenty_thousand_mhz_preserved() {
    let mut agg = WaylandOutputAggregator::new();
    agg.apply("eDP-1", &current(2560, 1600, 120000));
    assert_eq!(agg.snapshot().outputs[0].current_mode.current.refresh.get(), 120000);
}

#[test]
fn refresh_zero_handled_as_not_meaningful() {
    let mut agg = WaylandOutputAggregator::new();
    agg.apply("WL-1", &current(1920, 1080, 0));
    assert_eq!(agg.snapshot().outputs[0].current_mode.current.refresh.get(), 0);
}

#[test]
fn output_without_optional_name_still_represented() {
    let mut agg = WaylandOutputAggregator::new();
    agg.apply("out-1", &current(1920, 1080, 60000));
    let snap = agg.snapshot();
    assert_eq!(snap.outputs.len(), 1);
    assert_eq!(snap.outputs[0].id.as_str(), "out-1");
}

#[test]
fn named_output_identity_preserved() {
    let mut agg = WaylandOutputAggregator::new();
    agg.apply("HDMI-A-1", &OutputEvent::Name("HDMI-A-1".into()));
    agg.apply("HDMI-A-1", &current(3840, 2160, 60000));
    assert_eq!(agg.snapshot().outputs[0].id.as_str(), "HDMI-A-1");
}

#[test]
fn width_height_preserved() {
    let mut agg = WaylandOutputAggregator::new();
    agg.apply("eDP-1", &current(2560, 1600, 120000));
    let m = agg.snapshot().outputs[0].current_mode.current;
    assert_eq!(m.width, 2560);
    assert_eq!(m.height, 1600);
}

#[test]
fn preferred_flag_does_not_imply_current() {
    let mut agg = WaylandOutputAggregator::new();
    agg.apply("eDP-1", &current(1920, 1080, 60000));
    agg.apply("eDP-1", &preferred(1920, 1080, 120000));
    let snap = agg.snapshot();
    let out = &snap.outputs[0];
    assert_eq!(out.current_mode.current.refresh.get(), 60000);
    assert_eq!(out.current_mode.preferred.unwrap().refresh.get(), 120000);
}

#[test]
fn current_flag_determines_current_mode() {
    let mut agg = WaylandOutputAggregator::new();
    agg.apply("eDP-1", &current(1920, 1080, 60000));
    agg.apply("eDP-1", &current(1920, 1080, 120000));
    assert_eq!(agg.snapshot().outputs[0].current_mode.current.refresh.get(), 120000);
}

#[test]
fn non_current_modes_absent_is_valid() {
    let mut agg = WaylandOutputAggregator::new();
    agg.apply("eDP-1", &current(1920, 1080, 60000));
    assert!(agg.snapshot().outputs[0].available_modes.is_empty());
}

#[test]
fn non_current_modes_present_is_valid_observation() {
    let mut agg = WaylandOutputAggregator::new();
    agg.apply("eDP-1", &current(1920, 1080, 120000));
    agg.apply("eDP-1", &non_current(1920, 1080, 60000));
    let snap = agg.snapshot();
    let out = &snap.outputs[0];
    assert_eq!(out.available_modes.len(), 1);
    assert_eq!(out.available_modes[0].refresh.get(), 60000);
}

#[test]
fn multiple_outputs_isolated() {
    let mut agg = WaylandOutputAggregator::new();
    agg.apply("eDP-1", &current(2560, 1600, 120000));
    agg.apply("HDMI-A-1", &current(3840, 2160, 60000));
    let snap = agg.snapshot();
    assert_eq!(snap.outputs.len(), 2);
    assert_eq!(snap.outputs[0].id.as_str(), "HDMI-A-1");
    assert_eq!(snap.outputs[1].id.as_str(), "eDP-1");
}

#[test]
fn one_output_changes_current_mode() {
    let mut agg = WaylandOutputAggregator::new();
    agg.apply("eDP-1", &current(1920, 1080, 60000));
    assert_eq!(agg.snapshot().outputs[0].current_mode.current.refresh.get(), 60000);
    agg.apply("eDP-1", &current(1920, 1080, 120000));
    assert_eq!(agg.snapshot().outputs[0].current_mode.current.refresh.get(), 120000);
}

#[test]
fn old_current_state_correctly_replaced() {
    let mut agg = WaylandOutputAggregator::new();
    agg.apply("eDP-1", &current(1920, 1080, 60000));
    agg.apply("eDP-1", &current(1920, 1080, 120000));
    let snap = agg.snapshot();
    let out = &snap.outputs[0];
    assert_eq!(out.current_mode.current.refresh.get(), 120000);
    assert!(out.available_modes.is_empty());
}

#[test]
fn output_removal_removes_only_that_output() {
    let mut agg = WaylandOutputAggregator::new();
    agg.apply("eDP-1", &current(2560, 1600, 120000));
    agg.apply("HDMI-A-1", &current(3840, 2160, 60000));
    agg.remove_output("eDP-1");
    let snap = agg.snapshot();
    assert_eq!(snap.outputs.len(), 1);
    assert_eq!(snap.outputs[0].id.as_str(), "HDMI-A-1");
}

#[test]
fn hotplug_adds_output_without_corrupting_existing() {
    let mut agg = WaylandOutputAggregator::new();
    agg.apply("eDP-1", &current(2560, 1600, 120000));
    agg.apply("HDMI-A-1", &current(3840, 2160, 60000));
    let snap = agg.snapshot();
    assert_eq!(snap.outputs.len(), 2);
    assert_eq!(snap.outputs[0].id.as_str(), "HDMI-A-1");
    assert_eq!(snap.outputs[1].id.as_str(), "eDP-1");
}

#[test]
fn done_boundary_produces_coherent_snapshot() {
    let mut agg = WaylandOutputAggregator::new();
    agg.apply("eDP-1", &OutputEvent::Name("eDP-1".into()));
    agg.apply("eDP-1", &current(1920, 1080, 60000));
    agg.apply("eDP-1", &OutputEvent::Done);
    let snap = agg.snapshot();
    let out = &snap.outputs[0];
    assert_eq!(out.id.as_str(), "eDP-1");
    assert_eq!(out.current_mode.current.refresh.get(), 60000);
}

#[test]
fn contradictory_multiple_current_modes_handled_deterministically() {
    let mut agg = WaylandOutputAggregator::new();
    agg.apply("eDP-1", &current(1920, 1080, 60000));
    agg.apply("eDP-1", &current(1920, 1080, 120000));
    assert_eq!(agg.snapshot().outputs[0].current_mode.current.refresh.get(), 120000);
}

#[test]
fn no_outputs_does_not_create_fake_output() {
    let agg = WaylandOutputAggregator::new();
    assert!(agg.snapshot().outputs.is_empty());
}

#[test]
fn output_without_current_mode_is_not_published() {
    let mut agg = WaylandOutputAggregator::new();
    agg.apply("eDP-1", &OutputEvent::Name("eDP-1".into()));
    agg.apply("eDP-1", &non_current(1920, 1080, 60000));
    assert!(agg.snapshot().outputs.is_empty());
}

#[test]
fn generic_provider_does_not_require_available_mode_enumeration() {
    let mut agg = WaylandOutputAggregator::new();
    agg.apply("eDP-1", &current(1920, 1080, 60000));
    let snap = agg.snapshot();
    assert_eq!(snap.outputs.len(), 1);
    assert!(snap.outputs[0].available_modes.is_empty());
}

#[test]
fn dispatch_decodes_mode_flags_and_tracks_done() {
    let mut state = WaylandState::new();
    assert!(!state.all_done());
    state.event("output-0", WlOutputEvent::Mode { flags: 0x3, width: 2560, height: 1600, refresh: 120000 });
    state.event("output-0", WlOutputEvent::Other);
    state.event("output-0", WlOutputEvent::Name("eDP-1".into()));
    state.event("output-0", WlOutputEvent::Done);
    assert!(state.all_done());
    let snap = state.snapshot();
    assert_eq!(snap.outputs.len(), 1);
    assert_eq!(snap.outputs[0].id.as_str(), "eDP-1");
    assert_eq!(snap.outputs[0].current_mode.preferred, Some(mode(2560, 1600, 120000)));
}

#[test]
fn bind_keys_number_output_globals_and_require_one() {
    let source = WaylandCompositorOutputSource::new();
    let keys = source
        .bind_keys(&vec!["wl_compositor".into(), "wl_output".into(), "wl_seat".into(), "wl_output".into()])
        .unwrap();
    assert_eq!(keys, vec!["output-0".to_string(), "output-1".to_string()]);
    assert!(matches!(source.bind_keys(&vec!["wl_seat".into()]), Err(ProviderError::Unsupported(_))));
    assert_eq!(MAX_ROUNDTRIPS, 8);
}

#[test]
fn outputs_sharing_an_identity_keep_their_arrival_order() {
    let mut agg = WaylandOutputAggregator::new();
    agg.apply("k2", &OutputEvent::Name("DP-1".into()));
    agg.apply("k2", &current(2560, 1440, 144000));
    agg.apply("k1", &OutputEvent::Name("DP-1".into()));
    agg.apply("k1", &current(1920, 1080, 60000));
    agg.apply("k0", &OutputEvent::Name("A-1".into()));
    agg.apply("k0", &current(800, 600, 60000));
    let snap = agg.snapshot();
    assert_eq!(snap.outputs.len(), 3);
    assert_eq!(snap.outputs[0].id.as_str(), "A-1");
    assert_eq!(snap.outputs[1].current_mode.current, mode(2560, 1440, 144000));
    assert_eq!(snap.outputs[2].current_mode.current, mode(1920, 1080, 60000));
}

#[test]
fn output_fold_keeps_last_name_and_preferred_and_ordered_available_modes() {
    let mut agg = WaylandOutputAggregator::new();
    agg.apply("k", &OutputEvent::Name("first".into()));
    agg.apply("k", &preferred(1920, 1080, 60000));
    agg.apply("k", &non_current(1280, 720, 59940));
    agg.apply("k", &current(2560, 1600, 120000));
    agg.apply("k", &preferred(2560, 1600, 60000));
    agg.apply("k", &OutputEvent::Name("eDP-1".into()));
    agg.apply("k", &OutputEvent::Done);
    let snap = agg.snapshot();
    let out = &snap.outputs[0];
    assert_eq!(out.id.as_str(), "eDP-1");
    assert_eq!(out.current_mode.current, mode(2560, 1600, 120000));
    assert_eq!(out.current_mode.preferred, Some(mode(2560, 1600, 60000)));
    assert_eq!(out.available_modes, vec![mode(1920, 1080, 60000), mode(1280, 720, 59940), mode(2560, 1600, 60000)]);
}
