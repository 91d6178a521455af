# orbis-providers

Typed provider logic for Orbis hardware and platform capabilities on ASUS
laptops: telemetry from kernel sysfs and LACT, GPU mode and MUX evidence,
the native Eco preflight, Aura and keyboard lighting, power limits, display
outputs and DRM identities, service presence, readiness and diagnostics.

The library under `src/` is written in Verus. Each provider decision is a
function from plain values (file contents, D-Bus replies, registry globals,
DRM answers) to a typed result, with a contract that states that result.
Where a result goes through an opaque std value (the wall clock, a
`SystemTime` or `Duration`), the contract says what holds of every outcome,
and a sibling function that takes the measured value as a plain integer
states the rest exactly (telemetry freshness, for one). The laws of the library (what an error mode leaves untouched, what
a pending GPU change does not apply, which evidence can never grant
readiness, how output events fold into a snapshot) are proof functions.

`app/` holds the host side: reading files and `/proc`, the D-Bus, Wayland,
DRM and LACT transports, async timeouts, and serde/thiserror copies of the
library types. It only gathers values and hands them to the library.

`tests/` exercises the library on concrete inputs.
