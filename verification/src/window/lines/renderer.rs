use super::super::points::point::Point3;
use super::line::{Line, Segment};
use super::source::LineSource;
use crate::pipes::buffer::{BufferModel, GpuVec, RenderStep};
use core::marker::PhantomData;
use vstd::prelude::*;

verus! {

/// The vertex records of `segments`, all drawn in `color`, in the same order.
pub open spec fn spec_lines_to_vertices<N, C>(segments: Seq<Segment<N>>, color: Point3<C>) -> Seq<
    Line<N, C>,
> {
    Seq::new(segments.len(), |i: int| Line::spec_colored(segments[i], color))
}

/// Turns segments into the vertex records of lines drawn in `color`.
pub fn lines_to_vertices<N: Copy, C: Copy>(segments: &Vec<Segment<N>>, color: Point3<C>) -> (vertices:
    Vec<Line<N, C>>)
    ensures
        vertices@ == spec_lines_to_vertices(segments@, color),
{
    let mut vertices: Vec<Line<N, C>> = Vec::new();
    let mut i: usize = 0;
    while i < segments.len()
        invariant
            i <= segments.len(),
            vertices@ == spec_lines_to_vertices(segments@.take(i as int), color),
        decreases segments.len() - i,
    {
        vertices.push(Line::colored(segments[i], color));
        i = i + 1;
        assert(vertices@ =~= spec_lines_to_vertices(segments@.take(i as int), color));
    }
    assert(segments@.take(i as int) =~= segments@);
    vertices
}

/// The renderer of a line pipeline: pulls the segments of its source at every
/// frame and plans the device work for them.
pub struct LinesRendener<N, C, S: LineSource<N, C>> {
    pub buffer: GpuVec<Line<N, C>>,
    pub source: S,
    pub number: PhantomData<(N, C)>,
}

impl<N: Copy, C: Copy, S: LineSource<N, C>> LinesRendener<N, C, S> {
    /// Makes a renderer over `source` with an empty buffer.
    pub fn new(source: S) -> (renderer: Self)
        ensures
            renderer.buffer@ == BufferModel::<Line<N, C>>::empty(),
            renderer.source == source,
    {
        Self { buffer: GpuVec::new(), source, number: PhantomData }
    }

    /// The buffer and the frame that follow from `segments` drawn in `color`.
    pub open spec fn is_frame_of(
        before: BufferModel<Line<N, C>>,
        after: BufferModel<Line<N, C>>,
        step: Option<RenderStep>,
        segments: Seq<Segment<N>>,
        color: Point3<C>,
        record_size: u64,
    ) -> bool {
        &&& step == before.frame(spec_lines_to_vertices(segments, color), record_size)
        &&& after == before.after_frame(spec_lines_to_vertices(segments, color), record_size)
    }

    /// Puts `segments`, drawn in `color`, into the buffer and plans the frame
    /// that draws them with records of `record_size` bytes.
    pub fn render_lines(
        &mut self,
        segments: &Vec<Segment<N>>,
        color: Point3<C>,
        record_size: u64,
    ) -> (step: Option<RenderStep>)
        ensures
            final(self).source == old(self).source,
            Self::is_frame_of(
                old(self).buffer@,
                final(self).buffer@,
                step,
                segments@,
                color,
                record_size,
            ),
    {
        let vertices = lines_to_vertices(segments, color);
        self.buffer.render(vertices, record_size)
    }

    /// Pulls the colour and the segments of the source and plans the frame
    /// that draws them. What the source answers is up to the source; the
    /// frame is the one that `render_lines` plans for its answer.
    pub fn render(&mut self, record_size: u64) -> (step: Option<RenderStep>)
        ensures
            final(self).source == old(self).source,
            final(self).buffer@.capacity >= old(self).buffer@.capacity,
            exists|segments: Seq<Segment<N>>, color: Point3<C>|
                Self::is_frame_of(
                    old(self).buffer@,
                    final(self).buffer@,
                    step,
                    segments,
                    color,
                    record_size,
                ),
    {
        let color = self.source.line_color();
        let segments = self.source.collect_visual_lines();
        self.render_lines(&segments, color, record_size)
    }
}

} // verus!
