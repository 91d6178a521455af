use orbis_providers::asus_gpu_mode::{decode_asus_gpu_mode, AsusGpuMode, AsusGpuModeSnapshot};

#[test]
fn decodes_upstream_asus_three_mode_mapping() {
    assert_eq!(decode_asus_gpu_mode(Some(0), Some(1)), AsusGpuMode::Hybrid);
    assert_eq!(decode_asus_gpu_mode(Some(1), Some(1)), AsusGpuMode::Integrated);
    assert_eq!(decode_asus_gpu_mode(Some(0), Some(0)), AsusGpuMode::Ultimate);
}

#[test]
fn missing_attribute_is_incomplete() {
    assert_eq!(decode_asus_gpu_mode(Some(0), None), AsusGpuMode::Incomplete);
    assert_eq!(decode_asus_gpu_mode(None, Some(1)), AsusGpuMode::Incomplete);
}

#[test]
fn impossible_pair_is_conflicted() {
    assert_eq!(
        decode_asus_gpu_mode(Some(1), Some(0)),
        AsusGpuMode::Conflicted { dgpu_disable: 1, gpu_mux_mode: 0 }
    );
}

#[test]
fn future_values_are_not_coerced() {
    assert_eq!(
        decode_asus_gpu_mode(Some(2), Some(1)),
        AsusGpuMode::Unknown { dgpu_disable: 2, gpu_mux_mode: 1 }
    );
}

#[test]
fn queued_pair_requires_reboot_and_decodes_independently() {
    let snapshot = AsusGpuModeSnapshot::from_values(Some(0), Some(1), Some(1), Some(1));
    assert_eq!(snapshot.current_mode, AsusGpuMode::Hybrid);
    assert_eq!(snapshot.queued_mode, Some(AsusGpuMode::Integrated));
    assert!(snapshot.reboot_required());
}

#[test]
fn partial_queue_is_not_presented_as_a_mode() {
    let snapshot = AsusGpuModeSnapshot::from_values(Some(0), Some(1), Some(1), None);
    assert_eq!(snapshot.queued_mode, None);
    assert!(!snapshot.reboot_required());
}

#[test]
fn queued_pair_equal_to_current_needs_no_reboot() {
    let snapshot = AsusGpuModeSnapshot::from_values(Some(0), Some(1), Some(0), Some(1));
    assert_eq!(snapshot.queued_mode, Some(AsusGpuMode::Hybrid));
    assert!(!snapshot.reboot_required());
}
