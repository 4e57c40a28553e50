//! Verified core of a viewer for SLAM data: buffer planning, glyph geometry
//! bookkeeping, camera-controller input handling and frame pacing.
//!
//! The crate holds the decisions of the viewer as functions on plain values.
//! Scalars (positions, colour channels, cursor coordinates) are type
//! parameters that the library only moves around, never computes with.

pub mod engine;
pub mod pipes;
pub mod viewer;
pub mod window;

pub use viewer::alloc_thread;
pub use window::{CameraControllerConfig, CameraFrustum};
