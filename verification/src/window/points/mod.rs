//! The point pipeline: one vertex per visual point.

pub mod builder;
pub mod point;
pub mod renderer;
pub mod source;

pub use self::point::{Point, Point3};
pub use self::renderer::{points_to_vertices, spec_points_to_vertices, PointsRendener};
pub use self::source::PointSource;
pub use self::builder::PointsBuilder;
