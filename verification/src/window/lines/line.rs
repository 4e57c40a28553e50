use super::super::points::point::{Point, Point3};
use crate::pipes::layout::{VertexAttribute, VertexBufferDescriptor};
use crate::pipes::vertex::GpuVertex;
use vstd::prelude::*;

verus! {

/// A line segment between two positions.
#[derive(Clone, Copy, Debug)]
pub struct Segment<N> {
    pub start: Point3<N>,
    pub end: Point3<N>,
}

/// The vertex record of a line segment: its two coloured end points.
#[derive(Clone, Copy, Debug)]
pub struct Line<N, C> {
    pub start: Point<N, C>,
    pub end: Point<N, C>,
}

impl<N, C> Line<N, C> {
    /// The record of `segment` drawn in `color`.
    pub open spec fn spec_colored(segment: Segment<N>, color: Point3<C>) -> Self {
        Line {
            start: Point { position: segment.start, color },
            end: Point { position: segment.end, color },
        }
    }

    /// Makes the record of `segment` drawn in `color`.
    pub fn colored(segment: Segment<N>, color: Point3<C>) -> (line: Self)
        where C: Copy
        ensures
            line == Self::spec_colored(segment, color),
    {
        Line {
            start: Point { position: segment.start, color },
            end: Point { position: segment.end, color },
        }
    }
}

impl<N, C> Line<N, C> {
    /// Returns the attributes of the vertices of a line, which are those of a
    /// point.
    pub fn attributes(position_size: u64) -> (attributes: (VertexAttribute, VertexAttribute))
        ensures
            attributes == Point::<N, C>::spec_attributes(position_size),
    {
        Point::<N, C>::attributes(position_size)
    }

    /// Returns the description of a buffer of line vertices, which is that of
    /// a buffer of points: `stride` is the distance between the two vertices
    /// of a line.
    pub fn desc(stride: u64, attributes: &(VertexAttribute, VertexAttribute)) -> (descriptor:
        VertexBufferDescriptor)
        ensures
            descriptor == (VertexBufferDescriptor {
                stride,
                position: attributes.0,
                color: attributes.1,
            }),
    {
        Point::<N, C>::desc(stride, attributes)
    }
}

impl<N, C> GpuVertex for Line<N, C> {
    open spec fn spec_weight() -> u64 {
        2
    }

    fn weight() -> (w: u64) {
        2
    }
}

} // verus!
