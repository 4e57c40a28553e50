//! The camera controller: an input state machine that collects what the
//! camera has to be moved by at the next frame.

pub mod controller;
pub mod frustrum;

pub use self::controller::{
    CameraController, CameraControllerConfig, CameraUpdate, ControllerModel, CursorMove, CursorPos,
};
pub use self::frustrum::CameraFrustum;
