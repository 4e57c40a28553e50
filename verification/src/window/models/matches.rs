use super::super::builder::WindowBuilder;
use super::super::camera::{CameraControllerConfig, CameraFrustum};
use super::super::lines::line::{Line, Segment};
use super::super::lines::renderer::{lines_to_vertices, spec_lines_to_vertices};
use super::super::lines::source::LineSource;
use super::super::points::point::{Point, Point3};
use super::super::points::renderer::{points_to_vertices, spec_points_to_vertices};
use super::super::points::source::PointSource;
use crate::pipes::buffer::{BufferModel, GpuVec, RenderStep};
use vstd::prelude::*;

verus! {

/// Two positions that were found to show the same feature.
#[derive(Clone, Copy, Debug)]
pub struct FeatureMatch<N> {
    pub first: Point3<N>,
    pub second: Point3<N>,
}

/// The end points of `matches`: for every match its first position, then its
/// second.
pub open spec fn spec_match_points<N>(matches: Seq<FeatureMatch<N>>) -> Seq<Point3<N>> {
    Seq::new(
        2 * matches.len(),
        |i: int|
            if i % 2 == 0 {
                matches[i / 2].first
            } else {
                matches[i / 2].second
            },
    )
}

/// The segments of `matches`: for every match the one from its first position
/// to its second.
pub open spec fn spec_match_lines<N>(matches: Seq<FeatureMatch<N>>) -> Seq<Segment<N>> {
    Seq::new(matches.len(), |i: int| Segment { start: matches[i].first, end: matches[i].second })
}

/// A list of matches, drawn as their end points and the segments between
/// them.
pub struct MatchesModel<N, C> {
    matches: Vec<FeatureMatch<N>>,
    point_color: Point3<C>,
    line_color: Point3<C>,
}

impl<N: Copy, C: Copy> MatchesModel<N, C> {
    /// The matches of the model.
    pub closed spec fn spec_matches(&self) -> Seq<FeatureMatch<N>> {
        self.matches@
    }

    /// The colour the end points are drawn in.
    pub closed spec fn spec_point_color(&self) -> Point3<C> {
        self.point_color
    }

    /// The colour the segments are drawn in.
    pub closed spec fn spec_line_color(&self) -> Point3<C> {
        self.line_color
    }

    /// Makes the model of `matches` with the given colours.
    pub fn new(matches: Vec<FeatureMatch<N>>, point_color: Point3<C>, line_color: Point3<C>) -> (model:
        Self)
        ensures
            model.spec_matches() == matches@,
            model.spec_point_color() == point_color,
            model.spec_line_color() == line_color,
    {
        Self { matches, point_color, line_color }
    }

    /// Makes the window that shows matches where the host asks for nothing
    /// else: it is titled `Matches Viewer` and asks for 120 frames per
    /// second.
    pub fn default_window(
        &self,
        camera: CameraFrustum<N>,
        camera_controller: CameraControllerConfig<N>,
    ) -> (window: WindowBuilder<N>)
        ensures
            window.title is Some,
            window.title.unwrap()@ == "Matches Viewer"@,
            window.framerate == Some(120u64),
            window.camera == camera,
            window.camera_controller == camera_controller,
    {
        WindowBuilder {
            title: Some("Matches Viewer".to_owned()),
            framerate: Some(120),
            camera,
            camera_controller,
        }
    }
}

impl<N: Copy, C: Copy> PointSource<N, C> for MatchesModel<N, C> {
    fn point_color(&self) -> (color: Point3<C>)
        ensures
            color == self.spec_point_color(),
    {
        self.point_color
    }

    /// Both end points of every match.
    fn collect_visual_points(&self) -> (points: Vec<Point3<N>>)
        ensures
            points@ == spec_match_points(self.spec_matches()),
    {
        let mut points: Vec<Point3<N>> = Vec::new();
        let mut i: usize = 0;
        while i < self.matches.len()
            invariant
                i <= self.matches.len(),
                points@ == spec_match_points(self.matches@.take(i as int)),
            decreases self.matches.len() - i,
        {
            points.push(self.matches[i].first);
            points.push(self.matches[i].second);
            i = i + 1;
            assert(points@ =~= spec_match_points(self.matches@.take(i as int)));
        }
        assert(self.matches@.take(i as int) =~= self.matches@);
        points
    }
}

impl<N: Copy, C: Copy> LineSource<N, C> for MatchesModel<N, C> {
    fn line_color(&self) -> (color: Point3<C>)
        ensures
            color == self.spec_line_color(),
    {
        self.line_color
    }

    /// The segment of every match.
    fn collect_visual_lines(&self) -> (segments: Vec<Segment<N>>)
        ensures
            segments@ == spec_match_lines(self.spec_matches()),
    {
        let mut segments: Vec<Segment<N>> = Vec::new();
        let mut i: usize = 0;
        while i < self.matches.len()
            invariant
                i <= self.matches.len(),
                segments@ == spec_match_lines(self.matches@.take(i as int)),
            decreases self.matches.len() - i,
        {
            segments.push(Segment { start: self.matches[i].first, end: self.matches[i].second });
            i = i + 1;
            assert(segments@ =~= spec_match_lines(self.matches@.take(i as int)));
        }
        assert(self.matches@.take(i as int) =~= self.matches@);
        segments
    }
}

/// The device work of one frame of matches: one step for each pipeline, in
/// drawing order.
#[derive(Clone, Copy, Debug, PartialEq, Eq, Structural)]
pub struct MatchesFrame {
    pub points_1: Option<RenderStep>,
    pub points_2: Option<RenderStep>,
    pub lines: Option<RenderStep>,
}

/// The renderer of matches: two point pipelines and a line pipeline over the
/// same matches, each with a buffer of its own.
pub struct MatchesRenderer<N, C> {
    pub matches: MatchesModel<N, C>,
    pub points_1: GpuVec<Point<N, C>>,
    pub points_2: GpuVec<Point<N, C>>,
    pub lines: GpuVec<Line<N, C>>,
}

impl<N: Copy, C: Copy> MatchesRenderer<N, C> {
    /// Makes the renderer of `matches` with three empty buffers.
    pub fn new(matches: MatchesModel<N, C>) -> (renderer: Self)
        ensures
            renderer.matches == matches,
            renderer.points_1@ == BufferModel::<Point<N, C>>::empty(),
            renderer.points_2@ == BufferModel::<Point<N, C>>::empty(),
            renderer.lines@ == BufferModel::<Line<N, C>>::empty(),
    {
        Self { matches, points_1: GpuVec::new(), points_2: GpuVec::new(), lines: GpuVec::new() }
    }

    /// The end point records of the matches.
    pub open spec fn spec_point_vertices(&self) -> Seq<Point<N, C>> {
        spec_points_to_vertices(
            spec_match_points(self.matches.spec_matches()),
            self.matches.spec_point_color(),
        )
    }

    /// The segment records of the matches.
    pub open spec fn spec_line_vertices(&self) -> Seq<Line<N, C>> {
        spec_lines_to_vertices(
            spec_match_lines(self.matches.spec_matches()),
            self.matches.spec_line_color(),
        )
    }

    /// `after` and `frame` are what one frame makes of the renderer `self`:
    /// every buffer took the records of its pipeline, and the matches stayed.
    pub open spec fn rendered(
        &self,
        after: &Self,
        point_size: u64,
        line_size: u64,
        frame: MatchesFrame,
    ) -> bool {
        &&& after.matches == self.matches
        &&& frame.points_1 == self.points_1@.frame(self.spec_point_vertices(), point_size)
        &&& after.points_1@ == self.points_1@.after_frame(self.spec_point_vertices(), point_size)
        &&& frame.points_2 == self.points_2@.frame(self.spec_point_vertices(), point_size)
        &&& after.points_2@ == self.points_2@.after_frame(self.spec_point_vertices(), point_size)
        &&& frame.lines == self.lines@.frame(self.spec_line_vertices(), line_size)
        &&& after.lines@ == self.lines@.after_frame(self.spec_line_vertices(), line_size)
    }

    /// Plans one frame: the end points twice, then the segments.
    pub fn render(&mut self, point_size: u64, line_size: u64) -> (frame: MatchesFrame)
        ensures
            old(self).rendered(final(self), point_size, line_size, frame),
    {
        let point_color = self.matches.point_color();
        let ends = self.matches.collect_visual_points();
        let points_1 = self.points_1.render(points_to_vertices(&ends, point_color), point_size);
        let points_2 = self.points_2.render(points_to_vertices(&ends, point_color), point_size);

        let line_color = self.matches.line_color();
        let segments = self.matches.collect_visual_lines();
        let lines = self.lines.render(lines_to_vertices(&segments, line_color), line_size);
        MatchesFrame { points_1, points_2, lines }
    }
}

} // verus!
