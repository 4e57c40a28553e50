//! Frame pacing and event routing of the engine.

pub mod base;
pub mod builder;
pub mod pacing;
pub mod registry;
pub mod timer;

pub use self::base::{Engine, EngineModel};
pub use self::builder::EngineBuilder;
pub use self::pacing::{frame_interval, min_framerate, pacing_interval};
pub use self::registry::{interpret, EngineAction, Event, WindowRegistry};
pub use self::timer::Timer;
