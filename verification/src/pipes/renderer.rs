use super::buffer::{BufferModel, RenderStep};
use crate::window::isometries::isometry::Isometry;
use crate::window::lines::line::Line;
use crate::window::models::matches::{MatchesFrame, MatchesRenderer};
use crate::window::models::points::PointsModel;
use crate::window::models::world::{RecordSizes, WorldFrame, WorldRenderer};
use crate::window::points::point::Point;
use crate::window::points::renderer::{spec_points_to_vertices, PointsRendener};
use crate::window::points::source::PointSource;
use vstd::prelude::*;

verus! {

/// The renderer of one window, after its pipelines were built.
pub enum PipelineRenderer<N: Copy, C: Copy> {
    World(WorldRenderer<N, C>),
    Points(PointsRendener<N, C, PointsModel<N, C>>),
    Matches(MatchesRenderer<N, C>),
}

/// The device work of one frame of a window, pipeline by pipeline in drawing
/// order.
#[derive(Clone, Copy, Debug, PartialEq, Eq, Structural)]
pub enum Frame {
    World(WorldFrame),
    Points(Option<RenderStep>),
    Matches(MatchesFrame),
}

impl<N: Copy, C: Copy> PipelineRenderer<N, C> {
    /// No buffer of the renderer has seen data yet.
    pub open spec fn is_fresh(&self) -> bool {
        match self {
            PipelineRenderer::World(r) => {
                &&& r.points@ == BufferModel::<Point<N, C>>::empty()
                &&& r.lines@ == BufferModel::<Line<N, C>>::empty()
                &&& r.isometries@ == BufferModel::<Isometry<N, C>>::empty()
            },
            PipelineRenderer::Points(r) => r.buffer@ == BufferModel::<Point<N, C>>::empty(),
            PipelineRenderer::Matches(r) => {
                &&& r.points_1@ == BufferModel::<Point<N, C>>::empty()
                &&& r.points_2@ == BufferModel::<Point<N, C>>::empty()
                &&& r.lines@ == BufferModel::<Line<N, C>>::empty()
            },
        }
    }

    /// `after` and `frame` are what one frame makes of the renderer `self`:
    /// the renderer keeps its kind and its data, and every pipeline of the
    /// kind took the records of the data into its buffer.
    pub open spec fn rendered(&self, after: &Self, sizes: RecordSizes, frame: Frame) -> bool {
        match (self, after, frame) {
            (
                PipelineRenderer::World(before),
                PipelineRenderer::World(after),
                Frame::World(frame),
            ) => before.rendered(after, sizes, frame),
            (
                PipelineRenderer::Points(before),
                PipelineRenderer::Points(after),
                Frame::Points(step),
            ) => {
                let vertices = spec_points_to_vertices(
                    before.source.spec_points(),
                    before.source.spec_color(),
                );
                &&& after.source == before.source
                &&& step == before.buffer@.frame(vertices, sizes.point)
                &&& after.buffer@ == before.buffer@.after_frame(vertices, sizes.point)
            },
            (
                PipelineRenderer::Matches(before),
                PipelineRenderer::Matches(after),
                Frame::Matches(frame),
            ) => before.rendered(after, sizes.point, sizes.line, frame),
            _ => false,
        }
    }

    /// Plans one frame from the current data of the renderer.
    pub fn render(&mut self, sizes: RecordSizes) -> (frame: Frame)
        ensures
            old(self).rendered(final(self), sizes, frame),
    {
        match self {
            PipelineRenderer::World(renderer) => Frame::World(renderer.render(sizes)),
            PipelineRenderer::Points(renderer) => {
                let color = renderer.source.point_color();
                let points = renderer.source.collect_visual_points();
                Frame::Points(renderer.render_points(&points, color, sizes.point))
            },
            PipelineRenderer::Matches(renderer) => Frame::Matches(
                renderer.render(sizes.point, sizes.line),
            ),
        }
    }
}

} // verus!
