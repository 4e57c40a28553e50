use super::point::{Point, Point3};
use super::source::PointSource;
use crate::pipes::buffer::{BufferModel, GpuVec, RenderStep};
use core::marker::PhantomData;
use vstd::prelude::*;

verus! {

/// The vertex records of `points`, all drawn in `color`, in the same order.
pub open spec fn spec_points_to_vertices<N, C>(points: Seq<Point3<N>>, color: Point3<C>) -> Seq<
    Point<N, C>,
> {
    Seq::new(points.len(), |i: int| Point { position: points[i], color })
}

/// Turns positions into the vertex records of points drawn in `color`.
pub fn points_to_vertices<N: Copy, C: Copy>(points: &Vec<Point3<N>>, color: Point3<C>) -> (vertices:
    Vec<Point<N, C>>)
    ensures
        vertices@ == spec_points_to_vertices(points@, color),
{
    let mut vertices: Vec<Point<N, C>> = Vec::new();
    let mut i: usize = 0;
    while i < points.len()
        invariant
            i <= points.len(),
            vertices@ == spec_points_to_vertices(points@.take(i as int), color),
        decreases points.len() - i,
    {
        vertices.push(Point { position: points[i], color });
        i = i + 1;
        assert(vertices@ =~= spec_points_to_vertices(points@.take(i as int), color));
    }
    assert(points@.take(i as int) =~= points@);
    vertices
}

/// After a frame for points that one draw call can cover, the buffer holds
/// one record for every point, in the order of the points, each at the
/// position of its point and in the colour of the frame, and the draw call
/// covers exactly these records.
pub proof fn lemma_frame_holds_the_points<N, C>(
    before: BufferModel<Point<N, C>>,
    points: Seq<Point3<N>>,
    color: Point3<C>,
    record_size: u64,
)
    requires
        points.len() <= u32::MAX,
        points.len() * record_size <= u64::MAX,
    ensures
        ({
            let vertices = spec_points_to_vertices(points, color);
            let after = before.after_frame(vertices, record_size);
            &&& before.frame(vertices, record_size) is Some
            &&& after.data == Some(vertices)
            &&& after.len() == points.len()
            &&& forall|i: int|
                0 <= i < points.len() ==> (#[trigger] vertices[i]).position == points[i]
                    && vertices[i].color == color
            &&& points.len() > 0 ==> after.draw(record_size) is Some && after.draw(
                record_size,
            ).unwrap().vertex_count == points.len()
        }),
{
}

/// The renderer of a point pipeline: pulls the points of its source at every
/// frame and plans the device work for them.
pub struct PointsRendener<N, C, S: PointSource<N, C>> {
    pub buffer: GpuVec<Point<N, C>>,
    pub source: S,
    pub number: PhantomData<(N, C)>,
}

impl<N: Copy, C: Copy, S: PointSource<N, C>> PointsRendener<N, C, S> {
    /// Makes a renderer over `source` with an empty buffer.
    pub fn new(source: S) -> (renderer: Self)
        ensures
            renderer.buffer@ == BufferModel::<Point<N, C>>::empty(),
            renderer.source == source,
    {
        Self { buffer: GpuVec::new(), source, number: PhantomData }
    }

    /// The buffer and the frame that follow from `points` drawn in `color`.
    pub open spec fn is_frame_of(
        before: BufferModel<Point<N, C>>,
        after: BufferModel<Point<N, C>>,
        step: Option<RenderStep>,
        points: Seq<Point3<N>>,
        color: Point3<C>,
        record_size: u64,
    ) -> bool {
        &&& step == before.frame(spec_points_to_vertices(points, color), record_size)
        &&& after == before.after_frame(spec_points_to_vertices(points, color), record_size)
    }

    /// Puts `points`, drawn in `color`, into the buffer and plans the frame
    /// that draws them with records of `record_size` bytes.
    pub fn render_points(
        &mut self,
        points: &Vec<Point3<N>>,
        color: Point3<C>,
        record_size: u64,
    ) -> (step: Option<RenderStep>)
        ensures
            final(self).source == old(self).source,
            Self::is_frame_of(
                old(self).buffer@,
                final(self).buffer@,
                step,
                points@,
                color,
                record_size,
            ),
    {
        let vertices = points_to_vertices(points, color);
        self.buffer.render(vertices, record_size)
    }

    /// Pulls the colour and the points of the source and plans the frame that
    /// draws them. What the source answers is up to the source; the frame is
    /// the one that `render_points` plans for its answer.
    pub fn render(&mut self, record_size: u64) -> (step: Option<RenderStep>)
        ensures
            final(self).source == old(self).source,
            final(self).buffer@.capacity >= old(self).buffer@.capacity,
            exists|points: Seq<Point3<N>>, color: Point3<C>|
                Self::is_frame_of(
                    old(self).buffer@,
                    final(self).buffer@,
                    step,
                    points,
                    color,
                    record_size,
                ),
    {
        let color = self.source.point_color();
        let points = self.source.collect_visual_points();
        self.render_points(&points, color, record_size)
    }
}

} // verus!
