use super::super::points::point::Point;
use super::line::Line;
use super::renderer::LinesRendener;
use super::source::LineSource;
use crate::pipes::buffer::BufferModel;
use crate::pipes::layout::{
    pipeline_layout, spec_pipeline_layout, PipelineLayout, PrimitiveTopology,
    VertexBufferDescriptor,
};
use core::marker::PhantomData;
use vstd::prelude::*;

verus! {

/// The builder of a line pipeline over a source.
pub struct LinesBuilder<N, C, S: LineSource<N, C>> {
    pub source: S,
    pub number: PhantomData<(N, C)>,
}

impl<N: Copy, C: Copy, S: LineSource<N, C>> LinesBuilder<N, C, S> {
    /// Makes the builder of a line pipeline over `source`.
    pub fn new(source: S) -> (builder: Self)
        ensures
            builder.source == source,
    {
        Self { source, number: PhantomData }
    }

    /// Builds the renderer: the source with an empty buffer.
    pub fn build(self) -> (renderer: LinesRendener<N, C, S>)
        ensures
            renderer.source == self.source,
            renderer.buffer@ == BufferModel::<Line<N, C>>::empty(),
    {
        LinesRendener::new(self.source)
    }
}

/// Returns the layout of the line pipeline, which the pose pipeline shares,
/// over vertices that are `stride` bytes apart and begin with a position of
/// `position_size` bytes: a list of lines.
pub fn build_render_pipeline<N, C>(stride: u64, position_size: u64) -> (layout: PipelineLayout)
    ensures
        layout == spec_pipeline_layout(
            PrimitiveTopology::LineList,
            VertexBufferDescriptor {
                stride,
                position: Point::<N, C>::spec_attributes(position_size).0,
                color: Point::<N, C>::spec_attributes(position_size).1,
            },
        ),
{
    pipeline_layout(
        PrimitiveTopology::LineList,
        Line::<N, C>::desc(stride, &Line::<N, C>::attributes(position_size)),
    )
}

} // verus!
