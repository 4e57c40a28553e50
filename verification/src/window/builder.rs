use super::camera::{CameraControllerConfig, CameraFrustum};
use vstd::prelude::*;

verus! {

/// How a window is to be made.
pub struct WindowBuilder<N> {
    /// The title of the window, if it is to have one of its own.
    pub title: Option<String>,
    /// The number of frames per second the window asks for, if it asks.
    pub framerate: Option<u64>,
    /// The initial placement and projection of the camera.
    pub camera: CameraFrustum<N>,
    /// The speeds of the camera controller.
    pub camera_controller: CameraControllerConfig<N>,
}

} // verus!
