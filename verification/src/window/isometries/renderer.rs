use super::super::points::point::Point3;
use super::isometry::{Corners, Isometry};
use super::source::IsometrySource;
use crate::pipes::buffer::{BufferModel, GpuVec, RenderStep};
use core::marker::PhantomData;
use vstd::prelude::*;

verus! {

/// `vertices` are the glyphs over `corners`, all drawn in `color`, in the
/// same order.
pub open spec fn are_glyphs_of<N, C>(
    vertices: Seq<Isometry<N, C>>,
    corners: Seq<Corners<N>>,
    color: Point3<C>,
) -> bool {
    &&& vertices.len() == corners.len()
    &&& forall|i: int|
        0 <= i < vertices.len() ==> (#[trigger] vertices[i]).is_glyph_of(corners[i], color)
}

/// Turns the corners of poses into the vertex records of their glyphs, drawn
/// in `color`.
pub fn corners_to_vertices<N: Copy, C: Copy>(corners: &Vec<Corners<N>>, color: Point3<C>) -> (vertices:
    Vec<Isometry<N, C>>)
    ensures
        are_glyphs_of(vertices@, corners@, color),
{
    let mut vertices: Vec<Isometry<N, C>> = Vec::new();
    let mut i: usize = 0;
    while i < corners.len()
        invariant
            i <= corners.len(),
            are_glyphs_of(vertices@, corners@.take(i as int), color),
        decreases corners.len() - i,
    {
        vertices.push(Isometry::from_corners(corners[i], color));
        i = i + 1;
    }
    assert(corners@.take(i as int) =~= corners@);
    vertices
}

/// The renderer of a pose pipeline: pulls the poses of its source at every
/// frame and plans the device work for their glyphs.
pub struct IsometriesRendener<N, C, S: IsometrySource<N, C>> {
    pub buffer: GpuVec<Isometry<N, C>>,
    pub source: S,
    pub number: PhantomData<(N, C)>,
}

impl<N: Copy, C: Copy, S: IsometrySource<N, C>> IsometriesRendener<N, C, S> {
    /// Makes a renderer over `source` with an empty buffer.
    pub fn new(source: S) -> (renderer: Self)
        ensures
            renderer.buffer@ == BufferModel::<Isometry<N, C>>::empty(),
            renderer.source == source,
    {
        Self { buffer: GpuVec::new(), source, number: PhantomData }
    }

    /// The buffer and the frame that follow from the glyphs over `corners`
    /// drawn in `color`.
    pub open spec fn is_frame_of(
        before: BufferModel<Isometry<N, C>>,
        after: BufferModel<Isometry<N, C>>,
        step: Option<RenderStep>,
        corners: Seq<Corners<N>>,
        color: Point3<C>,
        record_size: u64,
    ) -> bool {
        exists|vertices: Seq<Isometry<N, C>>|
            {
                &&& #[trigger] are_glyphs_of(vertices, corners, color)
                &&& step == before.frame(vertices, record_size)
                &&& after == before.after_frame(vertices, record_size)
            }
    }

    /// Puts the glyphs over `corners`, drawn in `color`, into the buffer and
    /// plans the frame that draws them with records of `record_size` bytes.
    pub fn render_corners(
        &mut self,
        corners: &Vec<Corners<N>>,
        color: Point3<C>,
        record_size: u64,
    ) -> (step: Option<RenderStep>)
        ensures
            final(self).source == old(self).source,
            final(self).buffer@.capacity >= old(self).buffer@.capacity,
            Self::is_frame_of(
                old(self).buffer@,
                final(self).buffer@,
                step,
                corners@,
                color,
                record_size,
            ),
    {
        let vertices = corners_to_vertices(corners, color);
        let ghost glyphs = vertices@;
        let step = self.buffer.render(vertices, record_size);
        assert(are_glyphs_of(glyphs, corners@, color));
        step
    }

    /// Pulls the colour and the poses of the source and plans the frame that
    /// draws their glyphs. What the source answers is up to the source; the
    /// frame is the one that `render_corners` plans for its answer.
    pub fn render(&mut self, record_size: u64) -> (step: Option<RenderStep>)
        ensures
            final(self).source == old(self).source,
            final(self).buffer@.capacity >= old(self).buffer@.capacity,
            exists|corners: Seq<Corners<N>>, color: Point3<C>|
                Self::is_frame_of(
                    old(self).buffer@,
                    final(self).buffer@,
                    step,
                    corners,
                    color,
                    record_size,
                ),
    {
        let color = self.source.isometry_color();
        let corners = self.source.collect_visual_isometries();
        self.render_corners(&corners, color, record_size)
    }
}

} // verus!
