use super::super::builder::WindowBuilder;
use super::super::camera::{CameraControllerConfig, CameraFrustum};
use super::super::points::point::Point3;
use super::super::points::source::PointSource;
use vstd::prelude::*;

verus! {

/// A list of points drawn in one colour.
pub struct PointsModel<N, C> {
    points: Vec<Point3<N>>,
    color: Point3<C>,
}

impl<N: Copy, C: Copy> PointsModel<N, C> {
    /// The points of the model.
    pub closed spec fn spec_points(&self) -> Seq<Point3<N>> {
        self.points@
    }

    /// The colour the points are drawn in.
    pub closed spec fn spec_color(&self) -> Point3<C> {
        self.color
    }

    /// Makes the model of `points` drawn in `color`.
    pub fn new(points: Vec<Point3<N>>, color: Point3<C>) -> (model: Self)
        ensures
            model.spec_points() == points@,
            model.spec_color() == color,
    {
        Self { points, color }
    }

    /// Makes the window that shows such a model where the host asks for
    /// nothing else: it is titled `2d Points Viewer` and asks for 120 frames
    /// per second.
    pub fn default_window(
        &self,
        camera: CameraFrustum<N>,
        camera_controller: CameraControllerConfig<N>,
    ) -> (window: WindowBuilder<N>)
        ensures
            window.title is Some,
            window.title.unwrap()@ == "2d Points Viewer"@,
            window.framerate == Some(120u64),
            window.camera == camera,
            window.camera_controller == camera_controller,
    {
        WindowBuilder {
            title: Some("2d Points Viewer".to_owned()),
            framerate: Some(120),
            camera,
            camera_controller,
        }
    }
}

impl<N: Copy, C: Copy> PointSource<N, C> for PointsModel<N, C> {
    fn point_color(&self) -> (color: Point3<C>)
        ensures
            color == self.spec_color(),
    {
        self.color
    }

    fn collect_visual_points(&self) -> (points: Vec<Point3<N>>)
        ensures
            points@ == self.spec_points(),
    {
        copy_points(&self.points)
    }
}

/// Copies a list of positions.
pub fn copy_points<N: Copy>(points: &Vec<Point3<N>>) -> (copy: Vec<Point3<N>>)
    ensures
        copy@ == points@,
{
    let mut copy: Vec<Point3<N>> = Vec::new();
    let mut i: usize = 0;
    while i < points.len()
        invariant
            i <= points.len(),
            copy@ == points@.take(i as int),
        decreases points.len() - i,
    {
        copy.push(points[i]);
        i = i + 1;
        assert(copy@ =~= points@.take(i as int));
    }
    assert(points@.take(i as int) =~= points@);
    copy
}

} // verus!
