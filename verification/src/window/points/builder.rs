use super::point::Point;
use super::renderer::PointsRendener;
use super::source::PointSource;
use crate::pipes::buffer::BufferModel;
use crate::pipes::layout::{
    pipeline_layout, spec_pipeline_layout, PipelineLayout, PrimitiveTopology,
    VertexBufferDescriptor,
};
use core::marker::PhantomData;
use vstd::prelude::*;

verus! {

/// The builder of a point pipeline over a source.
pub struct PointsBuilder<N, C, S: PointSource<N, C>> {
    pub source: S,
    pub number: PhantomData<(N, C)>,
}

impl<N: Copy, C: Copy, S: PointSource<N, C>> PointsBuilder<N, C, S> {
    /// Makes the builder of a point pipeline over `source`.
    pub fn new(source: S) -> (builder: Self)
        ensures
            builder.source == source,
    {
        Self { source, number: PhantomData }
    }

    /// Builds the renderer: the source with an empty buffer.
    pub fn build(self) -> (renderer: PointsRendener<N, C, S>)
        ensures
            renderer.source == self.source,
            renderer.buffer@ == BufferModel::<Point<N, C>>::empty(),
    {
        PointsRendener::new(self.source)
    }

    /// Returns the layout of the point pipeline over vertices that are
    /// `stride` bytes apart and begin with a position of `position_size`
    /// bytes: a list of points.
    pub fn build_render_pipeline(&self, stride: u64, position_size: u64) -> (layout: PipelineLayout)
        ensures
            layout == spec_pipeline_layout(
                PrimitiveTopology::PointList,
                VertexBufferDescriptor {
                    stride,
                    position: Point::<N, C>::spec_attributes(position_size).0,
                    color: Point::<N, C>::spec_attributes(position_size).1,
                },
            ),
    {
        pipeline_layout(
            PrimitiveTopology::PointList,
            Point::<N, C>::desc(stride, &Point::<N, C>::attributes(position_size)),
        )
    }
}

} // verus!
