//! The line pipeline: two vertices per line segment.

pub mod builder;
pub mod line;
pub mod renderer;
pub mod source;

pub use self::line::{Line, Segment};

pub use self::source::LineSource;
pub use self::renderer::{lines_to_vertices, spec_lines_to_vertices, LinesRendener};
pub use self::builder::{build_render_pipeline, LinesBuilder};
