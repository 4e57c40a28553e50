use super::line::Segment;
use super::super::points::point::Point3;
use vstd::prelude::*;

verus! {

/// Something that can say which line segments are to be seen right now.
pub trait LineSource<N, C> {
    /// The colour every segment of this source is drawn in.
    fn line_color(&self) -> Point3<C>;

    /// All visual segments of the moment, not only the new ones.
    fn collect_visual_lines(&self) -> Vec<Segment<N>>;
}

} // verus!
