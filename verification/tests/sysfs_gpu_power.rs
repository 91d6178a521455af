use orbis_providers::error::{IoErrorKind, IoFailure, ProviderError};
use orbis_providers::gpu::GpuPowerState;
use orbis_providers::sysfs_gpu_power::{GpuPowerCardEntry, SysfsGpuPowerProvider};

fn missing_file() -> IoFailure {
    IoFailure { kind: IoErrorKind::NotFound, raw_os_error: Some(2), message: "missing".into() }
}

fn card(name: &str, vendor: &str) -> Result<GpuPowerCardEntry, IoFailure> {
    Ok(GpuPowerCardEntry { name: name.into(), vendor: Ok(vendor.into()) })
}

#[test]
fn reads_nvidia_runtime_power_without_supergfxd() {
    let provider = SysfsGpuPowerProvider::new("/tmp/sysfs");
    let listing = Ok(vec![card("card0", "0x10de\n")]);
    let state = provider.read_state(&listing, &Ok("suspended\n".into()), &Ok("D3cold\n".into()));
    assert_eq!(state.unwrap(), GpuPowerState::Suspended);
}

#[test]
fn connector_entries_and_other_vendors_are_skipped() {
    let provider = SysfsGpuPowerProvider::new("/tmp/sysfs");
    let entries = vec![card("card0-eDP-1", "0x10de"), card("card0", "0x1002"), card("card1", "0x10de")];
    assert_eq!(provider.select_nvidia_card(&entries).unwrap(), Some(2));
    let none = vec![card("card0", "0x1002"), card("renderD128", "0x10de")];
    assert_eq!(provider.select_nvidia_card(&none).unwrap(), None);
}

#[test]
fn missing_nvidia_card_is_unsupported() {
    let provider = SysfsGpuPowerProvider::new("/tmp/sysfs");
    let listing = Ok(vec![card("card0", "0x8086")]);
    let state = provider.read_state(&listing, &Ok("active".into()), &Ok("D0".into()));
    assert_eq!(state, Err(ProviderError::Unsupported("no NVIDIA DRM device found".into())));
}

#[test]
fn absent_runtime_status_falls_back_to_pci_power_state() {
    let provider = SysfsGpuPowerProvider::new("/tmp/sysfs");
    let listing = Ok(vec![card("card1", "0x10de")]);
    assert_eq!(provider.read_state(&listing, &Err(missing_file()), &Ok("D0\n".into())), Ok(GpuPowerState::Active));
    assert_eq!(
        provider.read_state(&listing, &Err(missing_file()), &Ok("D3hot".into())),
        Ok(GpuPowerState::Suspended)
    );
    assert_eq!(provider.read_state(&listing, &Err(missing_file()), &Err(missing_file())), Ok(GpuPowerState::Unknown));
    assert_eq!(provider.read_state(&listing, &Ok("resuming".into()), &Err(missing_file())), Ok(GpuPowerState::Unknown));
}

#[test]
fn drm_directory_is_below_the_root() {
    assert_eq!(SysfsGpuPowerProvider::new("/tmp/sysfs").drm_dir(), "/tmp/sysfs/class/drm");
}
