//! Verified core of a coordinate-grid and field visualiser: UI state, equation validation,
//! apply diffs, tangent-dive decisions, the layout of differential-form operations, plane-wave
//! recognition, the Maxwell source cache, profiling counters and shader source editing.

pub mod applied_config;
pub mod differential;
pub mod dive;
pub mod em_profile;
pub mod field_rendering;
pub mod frame;
pub mod grid;
pub mod maxwell_cache;
pub mod plane_wave;
pub mod presets;
pub mod shader_source;
pub mod text;
pub mod ui_state;
pub mod validation;
