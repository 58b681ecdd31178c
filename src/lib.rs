//! Lifecycle of a window's rendering surface: the configuration applied to
//! the surface, the all-or-nothing GPU context, the per-frame render plan and
//! the ordered teardown on close.
//!
//! The library decides; the program around it performs the GPU and window
//! work that each decision names.

mod config;

pub use config::{clamp_dimension, configuration_for, AlphaMode, PresentMode, SurfaceConfig, FRAME_LATENCY};
mod frame;
mod lifecycle;

pub use frame::{triangle_frame, DrawCall, FramePlan, PassPlan};
pub use lifecycle::{Lifecycle, Resource, Shutdown};
