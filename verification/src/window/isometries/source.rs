use super::isometry::Corners;
use super::super::points::point::Point3;
use vstd::prelude::*;

verus! {

/// Something that can say which poses are to be seen right now.
///
/// A pose is handed over as the four corners of its frustum rectangle: the
/// offsets `(sx * w, sy * h, 0)` carried through the pose, where `(w, h)` is
/// the half size of the rectangle and `(sx, sy)` the signs of the corner.
pub trait IsometrySource<N, C> {
    /// The colour every glyph of this source is drawn in.
    fn isometry_color(&self) -> Point3<C>;

    /// The corners of all visual poses of the moment.
    fn collect_visual_isometries(&self) -> Vec<Corners<N>>;
}

} // verus!
