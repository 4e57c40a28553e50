use super::renderer::PipelineRenderer;
use crate::window::builder::WindowBuilder;
use crate::window::camera::{CameraControllerConfig, CameraFrustum};
use crate::window::models::matches::{MatchesModel, MatchesRenderer};
use crate::window::models::points::PointsModel;
use crate::window::models::world::{WorldModel, WorldRenderer};
use crate::window::points::renderer::PointsRendener;
use vstd::prelude::*;

verus! {

/// What a window is to show, before its pipelines are built.
pub enum PipelineBuilder<N, C> {
    /// A world: landmarks, trajectory and keyframe glyphs.
    World(WorldModel<N, C>),
    /// A list of points.
    Points(PointsModel<N, C>),
    /// A list of matches.
    Matches(MatchesModel<N, C>),
}

impl<N: Copy, C: Copy> PipelineBuilder<N, C> {
    /// The title of the window that shows this where the host asks for
    /// nothing else.
    pub open spec fn spec_default_title(&self) -> Seq<char> {
        match self {
            PipelineBuilder::World(_) => "Map Viewer"@,
            PipelineBuilder::Points(_) => "2d Points Viewer"@,
            PipelineBuilder::Matches(_) => "Matches Viewer"@,
        }
    }

    /// Makes the window that shows this where the host asks for nothing
    /// else: it has the title of the kind and asks for 120 frames per second.
    pub fn default_window(
        &self,
        camera: CameraFrustum<N>,
        camera_controller: CameraControllerConfig<N>,
    ) -> (window: WindowBuilder<N>)
        ensures
            window.title is Some,
            window.title.unwrap()@ == self.spec_default_title(),
            window.framerate == Some(120u64),
            window.camera == camera,
            window.camera_controller == camera_controller,
    {
        match self {
            PipelineBuilder::World(world) => world.default_window(camera, camera_controller),
            PipelineBuilder::Points(points) => points.default_window(camera, camera_controller),
            PipelineBuilder::Matches(matches) => matches.default_window(camera, camera_controller),
        }
    }

    /// Builds the renderer: the same data with an empty buffer for every
    /// pipeline of its kind.
    pub fn build(self) -> (renderer: PipelineRenderer<N, C>)
        ensures
            renderer.is_fresh(),
            match (self, renderer) {
                (PipelineBuilder::World(world), PipelineRenderer::World(r)) => r.world == world,
                (PipelineBuilder::Points(points), PipelineRenderer::Points(r)) => r.source
                    == points,
                (PipelineBuilder::Matches(matches), PipelineRenderer::Matches(r)) => r.matches
                    == matches,
                _ => false,
            },
    {
        match self {
            PipelineBuilder::World(world) => PipelineRenderer::World(WorldRenderer::new(world)),
            PipelineBuilder::Points(points) => PipelineRenderer::Points(PointsRendener::new(points)),
            PipelineBuilder::Matches(matches) => PipelineRenderer::Matches(
                MatchesRenderer::new(matches),
            ),
        }
    }
}

} // verus!
