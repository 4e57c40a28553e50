use super::super::lines::line::{Line, Segment};
use super::super::points::point::Point3;
use crate::pipes::vertex::GpuVertex;
use vstd::prelude::*;

verus! {

/// A corner of the frustum rectangle, named as seen along the pose's axis.
#[derive(Clone, Copy, Debug, PartialEq, Eq, Structural)]
pub enum Corner {
    /// The corner at `(-w, -h)`.
    BottomLeft,
    /// The corner at `(w, h)`.
    TopRight,
    /// The corner at `(-w, h)`.
    TopLeft,
    /// The corner at `(w, -h)`.
    BottomRight,
}

impl Corner {
    /// The signs of the corner's offset from the centre of the rectangle.
    pub open spec fn spec_signs(self) -> (i8, i8) {
        match self {
            Corner::BottomLeft => (-1i8, -1i8),
            Corner::TopRight => (1i8, 1i8),
            Corner::TopLeft => (-1i8, 1i8),
            Corner::BottomRight => (1i8, -1i8),
        }
    }

    /// Returns the signs of the corner's offset from the centre of the
    /// rectangle, first along the width, then along the height.
    pub fn signs(self) -> (signs: (i8, i8))
        ensures
            signs == self.spec_signs(),
    {
        match self {
            Corner::BottomLeft => (-1, -1),
            Corner::TopRight => (1, 1),
            Corner::TopLeft => (-1, 1),
            Corner::BottomRight => (1, -1),
        }
    }
}

/// The positions of the four corners of one frustum rectangle.
#[derive(Clone, Copy, Debug)]
pub struct Corners<N> {
    pub bottom_left: Point3<N>,
    pub top_right: Point3<N>,
    pub top_left: Point3<N>,
    pub bottom_right: Point3<N>,
}

impl<N> Corners<N> {
    /// The position of `corner`.
    pub open spec fn spec_at(self, corner: Corner) -> Point3<N> {
        match corner {
            Corner::BottomLeft => self.bottom_left,
            Corner::TopRight => self.top_right,
            Corner::TopLeft => self.top_left,
            Corner::BottomRight => self.bottom_right,
        }
    }

    /// Returns the position of `corner`.
    pub fn at(&self, corner: Corner) -> (position: Point3<N>)
        where N: Copy
        ensures
            position == self.spec_at(corner),
    {
        match corner {
            Corner::BottomLeft => self.bottom_left,
            Corner::TopRight => self.top_right,
            Corner::TopLeft => self.top_left,
            Corner::BottomRight => self.bottom_right,
        }
    }
}

/// The corners that the `i`-th segment of a glyph joins, from first to
/// second: the two diagonals, then the right, left, top and bottom side.
pub open spec fn glyph_edge(i: int) -> (Corner, Corner) {
    if i == 0 {
        (Corner::BottomLeft, Corner::TopRight)
    } else if i == 1 {
        (Corner::TopLeft, Corner::BottomRight)
    } else if i == 2 {
        (Corner::TopRight, Corner::BottomRight)
    } else if i == 3 {
        (Corner::TopLeft, Corner::BottomLeft)
    } else if i == 4 {
        (Corner::TopRight, Corner::TopLeft)
    } else {
        (Corner::BottomRight, Corner::BottomLeft)
    }
}

/// The vertex record of a pose: the six segments of its frustum glyph.
#[derive(Clone, Copy, Debug)]
pub struct Isometry<N, C> {
    lines: [Line<N, C>; 6],
}

impl<N, C> Isometry<N, C> {
    /// The six segments of the glyph, in drawing order.
    pub closed spec fn spec_lines(&self) -> Seq<Line<N, C>> {
        self.lines@
    }

    /// The `i`-th segment of the glyph over `corners`, drawn in `color`.
    pub open spec fn spec_line(corners: Corners<N>, color: Point3<C>, i: int) -> Line<N, C> {
        Line::spec_colored(
            Segment {
                start: corners.spec_at(glyph_edge(i).0),
                end: corners.spec_at(glyph_edge(i).1),
            },
            color,
        )
    }

    /// This is the glyph over `corners` drawn in `color`: six segments, the
    /// `i`-th between the corners of the `i`-th edge.
    pub open spec fn is_glyph_of(&self, corners: Corners<N>, color: Point3<C>) -> bool {
        &&& self.spec_lines().len() == 6
        &&& forall|i: int|
            0 <= i < 6 ==> #[trigger] self.spec_lines()[i] == Self::spec_line(corners, color, i)
    }

    /// Makes the glyph over `corners`, drawn in `color`.
    pub fn from_corners(corners: Corners<N>, color: Point3<C>) -> (glyph: Self)
        where N: Copy, C: Copy
        ensures
            glyph.is_glyph_of(corners, color),
    {
        let bl = corners.bottom_left;
        let tr = corners.top_right;
        let tl = corners.top_left;
        let br = corners.bottom_right;
        Isometry {
            lines: [
                Line::colored(Segment { start: bl, end: tr }, color),
                Line::colored(Segment { start: tl, end: br }, color),
                Line::colored(Segment { start: tr, end: br }, color),
                Line::colored(Segment { start: tl, end: bl }, color),
                Line::colored(Segment { start: tr, end: tl }, color),
                Line::colored(Segment { start: br, end: bl }, color),
            ],
        }
    }

    /// Returns the six segments of the glyph, in drawing order.
    pub fn lines(&self) -> (lines: &[Line<N, C>; 6])
        ensures
            lines@ == self.spec_lines(),
    {
        &self.lines
    }
}

impl<N, C> GpuVertex for Isometry<N, C> {
    open spec fn spec_weight() -> u64 {
        12
    }

    fn weight() -> (w: u64) {
        12
    }
}

/// The `i`-th segment of a glyph joins the corners `a` and `b`, in one
/// direction or the other.
pub open spec fn joins(i: int, a: Corner, b: Corner) -> bool {
    0 <= i < 6 && (glyph_edge(i) == (a, b) || glyph_edge(i) == (b, a))
}

/// The index of the segment between two different corners.
pub open spec fn edge_between(a: Corner, b: Corner) -> int {
    match (a, b) {
        (Corner::BottomLeft, Corner::TopRight) | (Corner::TopRight, Corner::BottomLeft) => 0,
        (Corner::TopLeft, Corner::BottomRight) | (Corner::BottomRight, Corner::TopLeft) => 1,
        (Corner::TopRight, Corner::BottomRight) | (Corner::BottomRight, Corner::TopRight) => 2,
        (Corner::TopLeft, Corner::BottomLeft) | (Corner::BottomLeft, Corner::TopLeft) => 3,
        (Corner::TopRight, Corner::TopLeft) | (Corner::TopLeft, Corner::TopRight) => 4,
        _ => 5,
    }
}

/// Every segment of a glyph joins two different corners, and every two
/// different corners are joined by exactly one segment: the glyph is the box
/// of the rectangle with both diagonals.
pub proof fn lemma_glyph_joins_every_pair_once()
    ensures
        forall|i: int| 0 <= i < 6 ==> (#[trigger] glyph_edge(i)).0 != glyph_edge(i).1,
        forall|a: Corner, b: Corner| a != b ==> joins(#[trigger] edge_between(a, b), a, b),
        forall|i: int, a: Corner, b: Corner| #[trigger] joins(i, a, b) ==> i == edge_between(a, b),
{
}

/// The glyph over given corners uses no position but theirs: both ends of
/// every segment are corners of the rectangle, and the segments are the same
/// whatever scalar type the positions have.
pub proof fn lemma_glyph_ends_are_corners<N, C>(corners: Corners<N>, color: Point3<C>, i: int)
    requires
        0 <= i < 6,
    ensures
        Isometry::<N, C>::spec_line(corners, color, i).start.position == corners.spec_at(
            glyph_edge(i).0,
        ),
        Isometry::<N, C>::spec_line(corners, color, i).end.position == corners.spec_at(
            glyph_edge(i).1,
        ),
        Isometry::<N, C>::spec_line(corners, color, i).start.color == color,
        Isometry::<N, C>::spec_line(corners, color, i).end.color == color,
{
}

} // verus!
