use super::point::Point3;
use vstd::prelude::*;

verus! {

/// Something that can say which points are to be seen right now.
pub trait PointSource<N, C> {
    /// The colour every point of this source is drawn in.
    fn point_color(&self) -> Point3<C>;

    /// All visual points of the moment, not only the new ones.
    fn collect_visual_points(&self) -> Vec<Point3<N>>;
}

} // verus!
