//! The pose pipeline: every pose is drawn as a frustum glyph of six line
//! segments between the four corners of a rectangle.

pub mod builder;
pub mod isometry;
pub mod renderer;
pub mod source;

pub use self::isometry::{edge_between, glyph_edge, joins, Corner, Corners, Isometry};

pub use self::source::IsometrySource;
pub use self::renderer::{are_glyphs_of, corners_to_vertices, IsometriesRendener};
pub use self::builder::IsometriesBuilder;
