//! Typed provider logic for Orbis hardware and platform capabilities.
//!
//! Rules:
//! - a provider judges the values it is handed and never fabricates one;
//! - provider errors preserve Unsupported / Unavailable / PermissionDenied /
//!   Unknown semantics, and malformed optional metadata degrades to absent
//!   where the provider documents it so.
//!
//! Scope: this library classifies single probe operations
//! ([`probe_result`]) but does not assemble capability records. The
//! capability probes, their bounded variants, the ASUS capability
//! diagnostics and the validation of display-refresh requests build values
//! of the Orbis capability and core crates, which this library does not
//! depend on, so they are not held here; for the same reason
//! `WlrOutputHeadState::refresh_evidence` gives the head's mode evidence
//! without a display role or an automatic-refresh flag.
use vstd::prelude::*;

pub mod error;
pub mod probe_result;
pub mod text;

pub use error::{IoErrorKind, IoFailure, OperationId, ProviderError, ValidationResult};
pub mod gpu;
pub mod supergfxd;
pub mod native_asus_eco;
pub mod paths;
pub mod telemetry;
pub mod sysfs_telemetry;
pub mod lact_telemetry;
pub mod limits;
pub mod asus_armoury_power_limits;
pub mod asus_legacy_power;
pub mod asus_gpu_mode;
pub mod wayland_output_management;
pub mod diagnostics;
pub mod ryzenadj_diagnostics;
pub mod linux_memory;
pub mod keyboard_backlight;
pub mod drm_kms_identity;
pub mod aura;
pub mod keyed;
pub mod wayland_output;
pub mod wlr_output_head;
pub mod mock;
pub mod mock_reads;
pub mod sysfs_gpu_power;
pub mod cpu_frequency;
pub mod telemetry_diagnostics;
pub mod readiness;
pub mod service_presence;
pub mod service_readiness;
pub mod display_diagnostics;
pub mod gpu_diagnostics;
pub mod system_metadata;
pub mod hardware_identity;
pub mod asus_boot_sound;
pub mod asus_armoury;
pub mod fan_defaults;
pub mod traits;
