use crate::pipes::layout::{VertexAttribute, VertexBufferDescriptor};
use crate::pipes::vertex::GpuVertex;
use vstd::prelude::*;

verus! {

/// Three values of one type: a position in space, or the red, green and blue
/// channel of a colour.
#[derive(Clone, Copy, Debug)]
pub struct Point3<T> {
    pub x: T,
    pub y: T,
    pub z: T,
}

/// The vertex record of a point: where it is and how it is coloured.
///
/// Positions have scalars of type `N`, colour channels of type `C`.
#[derive(Clone, Copy, Debug)]
pub struct Point<N, C> {
    pub position: Point3<N>,
    pub color: Point3<C>,
}

impl<N, C> Point<N, C> {
    /// The attributes of a point vertex whose position takes `position_size`
    /// bytes: the position at the start, read at location 0, and the colour
    /// behind it, read at location 1.
    pub open spec fn spec_attributes(position_size: u64) -> (VertexAttribute, VertexAttribute) {
        (
            VertexAttribute { offset: 0, shader_location: 0 },
            VertexAttribute { offset: position_size, shader_location: 1 },
        )
    }

    /// Returns the attributes of a point vertex whose position takes
    /// `position_size` bytes, the position first.
    pub fn attributes(position_size: u64) -> (attributes: (VertexAttribute, VertexAttribute))
        ensures
            attributes == Self::spec_attributes(position_size),
    {
        (
            VertexAttribute { offset: 0, shader_location: 0 },
            VertexAttribute { offset: position_size, shader_location: 1 },
        )
    }

    /// Returns the description of a buffer of vertices that are `stride`
    /// bytes apart and have the given attributes.
    pub fn desc(stride: u64, attributes: &(VertexAttribute, VertexAttribute)) -> (descriptor:
        VertexBufferDescriptor)
        ensures
            descriptor == (VertexBufferDescriptor {
                stride,
                position: attributes.0,
                color: attributes.1,
            }),
    {
        VertexBufferDescriptor { stride, position: attributes.0, color: attributes.1 }
    }
}

impl<N, C> GpuVertex for Point<N, C> {
    open spec fn spec_weight() -> u64 {
        1
    }

    fn weight() -> (w: u64) {
        1
    }
}

} // verus!
