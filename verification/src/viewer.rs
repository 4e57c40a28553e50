use crate::engine::builder::EngineBuilder;
use crate::pipes::builder::PipelineBuilder;
use crate::window::builder::WindowBuilder;
use crate::window::camera::{CameraControllerConfig, CameraFrustum};
use crate::window::models::matches::MatchesModel;
use crate::window::models::points::PointsModel;
use crate::window::models::world::WorldModel;
use vstd::prelude::*;

verus! {

/// Collects the windows of a viewer before the engine is started.
pub struct Viewer<N, C> {
    windows: Vec<(WindowBuilder<N>, PipelineBuilder<N, C>)>,
}

/// Makes a viewer without windows.
pub fn alloc_thread<N: Copy, C: Copy>() -> (viewer: Viewer<N, C>)
    ensures
        viewer@.len() == 0,
{
    Viewer { windows: Vec::new() }
}

impl<N, C> View for Viewer<N, C> {
    type V = Seq<(WindowBuilder<N>, PipelineBuilder<N, C>)>;

    closed spec fn view(&self) -> Seq<(WindowBuilder<N>, PipelineBuilder<N, C>)> {
        self.windows@
    }
}

/// `window` is the default window of `data` with the given camera and
/// controller.
pub open spec fn is_default_window<N: Copy, C: Copy>(
    window: WindowBuilder<N>,
    data: PipelineBuilder<N, C>,
    camera: CameraFrustum<N>,
    camera_controller: CameraControllerConfig<N>,
) -> bool {
    &&& window.title is Some
    &&& window.title.unwrap()@ == data.spec_default_title()
    &&& window.framerate == Some(120u64)
    &&& window.camera == camera
    &&& window.camera_controller == camera_controller
}

impl<N: Copy, C: Copy> Viewer<N, C> {
    /// Adds a window that shows `world`, with the default window of a world.
    pub fn add_world(
        self,
        world: WorldModel<N, C>,
        camera: CameraFrustum<N>,
        camera_controller: CameraControllerConfig<N>,
    ) -> (viewer: Self)
        ensures
            viewer@.len() == self@.len() + 1,
            viewer@.drop_last() == self@,
            viewer@.last().1 == PipelineBuilder::World(world),
            is_default_window(viewer@.last().0, viewer@.last().1, camera, camera_controller),
    {
        self.add(PipelineBuilder::World(world), camera, camera_controller)
    }

    /// Adds a window that shows `points`, with the default window of points.
    pub fn add_points(
        self,
        points: PointsModel<N, C>,
        camera: CameraFrustum<N>,
        camera_controller: CameraControllerConfig<N>,
    ) -> (viewer: Self)
        ensures
            viewer@.len() == self@.len() + 1,
            viewer@.drop_last() == self@,
            viewer@.last().1 == PipelineBuilder::Points(points),
            is_default_window(viewer@.last().0, viewer@.last().1, camera, camera_controller),
    {
        self.add(PipelineBuilder::Points(points), camera, camera_controller)
    }

    /// Adds a window that shows `matches`, with the default window of
    /// matches.
    pub fn add_matches(
        self,
        matches: MatchesModel<N, C>,
        camera: CameraFrustum<N>,
        camera_controller: CameraControllerConfig<N>,
    ) -> (viewer: Self)
        ensures
            viewer@.len() == self@.len() + 1,
            viewer@.drop_last() == self@,
            viewer@.last().1 == PipelineBuilder::Matches(matches),
            is_default_window(viewer@.last().0, viewer@.last().1, camera, camera_controller),
    {
        self.add(PipelineBuilder::Matches(matches), camera, camera_controller)
    }

    /// Adds a window that shows `data`, with the default window of its kind.
    pub fn add(
        self,
        data: PipelineBuilder<N, C>,
        camera: CameraFrustum<N>,
        camera_controller: CameraControllerConfig<N>,
    ) -> (viewer: Self)
        ensures
            viewer@.len() == self@.len() + 1,
            viewer@.drop_last() == self@,
            viewer@.last().1 == data,
            is_default_window(viewer@.last().0, data, camera, camera_controller),
    {
        let window = data.default_window(camera, camera_controller);
        self.add_window_pipe(window, data)
    }

    /// Adds `window` with the pipelines of `pipe` behind the windows that are
    /// there.
    pub fn add_window_pipe(self, window: WindowBuilder<N>, pipe: PipelineBuilder<N, C>) -> (viewer:
        Self)
        ensures
            viewer@ == self@.push((window, pipe)),
    {
        let mut viewer = self;
        viewer.windows.push((window, pipe));
        viewer
    }

    /// Hands the windows over to the builder of the engine, in the order in
    /// which they were added.
    pub fn compile(self) -> (engine: EngineBuilder<N, C>)
        ensures
            engine.windows@ == self@,
    {
        EngineBuilder { windows: self.windows }
    }
}

} // verus!
