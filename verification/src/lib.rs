//! Core of a live, scriptable telemetry dashboard.
//!
//! The crate owns the bidirectional bridge between native telemetry state and
//! a user-authored Lua script: it pushes a telemetry snapshot into
//! script-visible globals, re-evaluates the script, and defensively pulls
//! script-declared settings and a styled line set back out. A multi-cadence
//! scheduler decouples telemetry resampling from script evaluation and
//! rendering, and a reload controller governs the script hot-reload
//! lifecycle. Terminal rendering and the actual hardware queries live outside
//! this crate; they exchange plain values with the verified core.

pub mod color;
pub mod driver;
pub mod lua_api;
pub mod reload;
pub mod sched;
pub mod script_bridge;
pub mod settings;
pub mod snapshot;
pub mod style;
pub mod text;
