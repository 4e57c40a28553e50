//! What one window decides: how input drives the camera controller and which
//! vertex records the pipelines draw.

pub mod base;
pub mod builder;
pub mod camera;
pub mod event;
pub mod isometries;
pub mod lines;
pub mod models;
pub mod points;

pub use self::base::{Window, WindowModel};
pub use self::builder::WindowBuilder;
pub use self::camera::{
    CameraController, CameraControllerConfig, CameraFrustum, CameraUpdate, CursorMove, CursorPos,
};
pub use self::event::{
    ElementState, MouseButton, MouseScrollDelta, VirtualKeyCode, WindowEvent, WindowEventState,
};
pub use self::isometries::{Corner, Corners, Isometry, IsometrySource};
pub use self::lines::{Line, LineSource, Segment};
pub use self::points::{Point, Point3, PointSource};
