//! Verified core of a Gaussian-splat viewer: splat file format detection,
//! the SOG bundle decoder, frame pacing, the buffer plan and per-frame
//! decisions of the GPU sort pipelines.

pub mod text;
pub mod arith;
pub mod format;
pub mod sog;
pub mod redraw_scheduler;
pub mod gpu_types;
pub mod buffer_plan;
pub mod scene;
pub mod render_plan;
pub mod window_flow;
pub mod pass_wiring;
