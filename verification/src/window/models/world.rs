use super::super::builder::WindowBuilder;
use super::super::camera::{CameraControllerConfig, CameraFrustum};
use super::super::isometries::isometry::{Corners, Isometry};
use super::super::isometries::renderer::{are_glyphs_of, corners_to_vertices};
use super::super::isometries::source::IsometrySource;
use super::super::lines::line::{Line, Segment};
use super::super::lines::renderer::{lines_to_vertices, spec_lines_to_vertices};
use super::super::lines::source::LineSource;
use super::super::points::point::{Point, Point3};
use super::super::points::renderer::{points_to_vertices, spec_points_to_vertices};
use super::super::points::source::PointSource;
use super::points::copy_points;
use crate::pipes::buffer::{BufferModel, GpuVec, RenderStep};
use vstd::prelude::*;

verus! {

/// A keyframe as the viewer sees it: where the camera stood, and the corners
/// of its frustum rectangle carried through its pose.
#[derive(Clone, Copy, Debug)]
pub struct KeyFrame<N> {
    pub translation: Point3<N>,
    pub corners: Corners<N>,
}

/// The colours a world is drawn in.
#[derive(Clone, Copy, Debug)]
pub struct WorldColors<C> {
    /// The colour of the landmarks.
    pub points: Point3<C>,
    /// The colour of the trajectory.
    pub lines: Point3<C>,
    /// The colour of the frustum glyphs.
    pub isometries: Point3<C>,
}

/// The trajectory through `positions`: one segment for every position, from
/// the position before it to itself. The first position has none before it
/// and gets a segment of length zero.
pub open spec fn spec_trajectory<N>(positions: Seq<Point3<N>>) -> Seq<Segment<N>> {
    Seq::new(
        positions.len(),
        |i: int|
            Segment { start: if i == 0 {
                positions[0]
            } else {
                positions[i - 1]
            }, end: positions[i] },
    )
}

/// Returns the trajectory through `positions`, in their order.
pub fn trajectory<N: Copy>(positions: &Vec<Point3<N>>) -> (segments: Vec<Segment<N>>)
    ensures
        segments@ == spec_trajectory(positions@),
        segments@.len() == positions@.len(),
{
    let mut segments: Vec<Segment<N>> = Vec::new();
    let mut prev: Option<Point3<N>> = None;
    let mut i: usize = 0;
    while i < positions.len()
        invariant
            i <= positions.len(),
            segments@ == spec_trajectory(positions@.take(i as int)),
            prev == if i == 0 {
                None
            } else {
                Some(positions@[i - 1])
            },
        decreases positions.len() - i,
    {
        let p = positions[i];
        let segment = match prev {
            Some(prev) => Segment { start: prev, end: p },
            None => Segment { start: p, end: p },
        };
        prev = Some(p);
        segments.push(segment);
        i = i + 1;
        assert(segments@ =~= spec_trajectory(positions@.take(i as int)));
    }
    assert(positions@.take(i as int) =~= positions@);
    segments
}

/// A trajectory has one segment for every position. The first is the point
/// of the first position; every later one leads from the position before to
/// its own and begins where the segment before it ends.
pub proof fn lemma_trajectory_joins_consecutive_positions<N>(positions: Seq<Point3<N>>)
    ensures
        spec_trajectory(positions).len() == positions.len(),
        positions.len() > 0 ==> spec_trajectory(positions)[0] == (Segment {
            start: positions[0],
            end: positions[0],
        }),
        forall|i: int|
            1 <= i < positions.len() ==> #[trigger] spec_trajectory(positions)[i] == (Segment {
                start: positions[i - 1],
                end: positions[i],
            }),
        forall|i: int|
            1 <= i < positions.len() ==> (#[trigger] spec_trajectory(positions)[i]).start
                == spec_trajectory(positions)[i - 1].end,
{
}

/// The translations of `keyframes`, in their order.
pub open spec fn spec_translations<N>(keyframes: Seq<KeyFrame<N>>) -> Seq<Point3<N>> {
    Seq::new(keyframes.len(), |i: int| keyframes[i].translation)
}

/// The frustum corners of `keyframes`, in their order.
pub open spec fn spec_corners<N>(keyframes: Seq<KeyFrame<N>>) -> Seq<Corners<N>> {
    Seq::new(keyframes.len(), |i: int| keyframes[i].corners)
}

/// A snapshot of a world: its landmarks and its keyframes in the order in
/// which the camera passed them.
pub struct WorldModel<N, C> {
    landmarks: Vec<Point3<N>>,
    keyframes: Vec<KeyFrame<N>>,
    colors: WorldColors<C>,
}

impl<N: Copy, C: Copy> WorldModel<N, C> {
    /// The positions of the landmarks.
    pub closed spec fn spec_landmarks(&self) -> Seq<Point3<N>> {
        self.landmarks@
    }

    /// The keyframes, oldest first.
    pub closed spec fn spec_keyframes(&self) -> Seq<KeyFrame<N>> {
        self.keyframes@
    }

    /// The colours the world is drawn in.
    pub closed spec fn spec_colors(&self) -> WorldColors<C> {
        self.colors
    }

    /// Makes the snapshot of a world.
    pub fn new(landmarks: Vec<Point3<N>>, keyframes: Vec<KeyFrame<N>>, colors: WorldColors<C>) -> (model:
        Self)
        ensures
            model.spec_landmarks() == landmarks@,
            model.spec_keyframes() == keyframes@,
            model.spec_colors() == colors,
    {
        Self { landmarks, keyframes, colors }
    }

    /// Makes the window that shows a world where the host asks for nothing
    /// else: it is titled `Map Viewer` and asks for 120 frames per second.
    pub fn default_window(
        &self,
        camera: CameraFrustum<N>,
        camera_controller: CameraControllerConfig<N>,
    ) -> (window: WindowBuilder<N>)
        ensures
            window.title is Some,
            window.title.unwrap()@ == "Map Viewer"@,
            window.framerate == Some(120u64),
            window.camera == camera,
            window.camera_controller == camera_controller,
    {
        WindowBuilder {
            title: Some("Map Viewer".to_owned()),
            framerate: Some(120),
            camera,
            camera_controller,
        }
    }

    /// Returns the translations of the keyframes, oldest first.
    pub fn translations(&self) -> (positions: Vec<Point3<N>>)
        ensures
            positions@ == spec_translations(self.spec_keyframes()),
    {
        let mut positions: Vec<Point3<N>> = Vec::new();
        let mut i: usize = 0;
        while i < self.keyframes.len()
            invariant
                i <= self.keyframes.len(),
                positions@ == spec_translations(self.keyframes@.take(i as int)),
            decreases self.keyframes.len() - i,
        {
            positions.push(self.keyframes[i].translation);
            i = i + 1;
            assert(positions@ =~= spec_translations(self.keyframes@.take(i as int)));
        }
        assert(self.keyframes@.take(i as int) =~= self.keyframes@);
        positions
    }
}

impl<N: Copy, C: Copy> PointSource<N, C> for WorldModel<N, C> {
    fn point_color(&self) -> (color: Point3<C>)
        ensures
            color == self.spec_colors().points,
    {
        self.colors.points
    }

    /// The landmarks of the world.
    fn collect_visual_points(&self) -> (points: Vec<Point3<N>>)
        ensures
            points@ == self.spec_landmarks(),
    {
        copy_points(&self.landmarks)
    }
}

impl<N: Copy, C: Copy> LineSource<N, C> for WorldModel<N, C> {
    fn line_color(&self) -> (color: Point3<C>)
        ensures
            color == self.spec_colors().lines,
    {
        self.colors.lines
    }

    /// The trajectory through the keyframes of the world.
    fn collect_visual_lines(&self) -> (segments: Vec<Segment<N>>)
        ensures
            segments@ == spec_trajectory(spec_translations(self.spec_keyframes())),
    {
        let positions = self.translations();
        trajectory(&positions)
    }
}

impl<N: Copy, C: Copy> IsometrySource<N, C> for WorldModel<N, C> {
    fn isometry_color(&self) -> (color: Point3<C>)
        ensures
            color == self.spec_colors().isometries,
    {
        self.colors.isometries
    }

    /// The frustum corners of the keyframes of the world.
    fn collect_visual_isometries(&self) -> (corners: Vec<Corners<N>>)
        ensures
            corners@ == spec_corners(self.spec_keyframes()),
    {
        let mut corners: Vec<Corners<N>> = Vec::new();
        let mut i: usize = 0;
        while i < self.keyframes.len()
            invariant
                i <= self.keyframes.len(),
                corners@ == spec_corners(self.keyframes@.take(i as int)),
            decreases self.keyframes.len() - i,
        {
            corners.push(self.keyframes[i].corners);
            i = i + 1;
            assert(corners@ =~= spec_corners(self.keyframes@.take(i as int)));
        }
        assert(self.keyframes@.take(i as int) =~= self.keyframes@);
        corners
    }
}

/// The device work of one frame of a world: one step for each pipeline, in
/// drawing order.
#[derive(Clone, Copy, Debug, PartialEq, Eq, Structural)]
pub struct WorldFrame {
    pub points: Option<RenderStep>,
    pub lines: Option<RenderStep>,
    pub isometries: Option<RenderStep>,
}

/// The sizes in bytes of the three kinds of vertex records.
#[derive(Clone, Copy, Debug, PartialEq, Eq, Structural)]
pub struct RecordSizes {
    pub point: u64,
    pub line: u64,
    pub isometry: u64,
}

/// The renderer of a world: landmarks as points, the trajectory as lines and
/// the keyframes as frustum glyphs, each with a buffer of its own.
pub struct WorldRenderer<N, C> {
    pub world: WorldModel<N, C>,
    pub points: GpuVec<Point<N, C>>,
    pub lines: GpuVec<Line<N, C>>,
    pub isometries: GpuVec<Isometry<N, C>>,
}

impl<N: Copy, C: Copy> WorldRenderer<N, C> {
    /// Makes the renderer of `world` with three empty buffers.
    pub fn new(world: WorldModel<N, C>) -> (renderer: Self)
        ensures
            renderer.world == world,
            renderer.points@ == BufferModel::<Point<N, C>>::empty(),
            renderer.lines@ == BufferModel::<Line<N, C>>::empty(),
            renderer.isometries@ == BufferModel::<Isometry<N, C>>::empty(),
    {
        Self { world, points: GpuVec::new(), lines: GpuVec::new(), isometries: GpuVec::new() }
    }

    /// Replaces the world by a newer snapshot; the buffers stay.
    pub fn set_world(&mut self, world: WorldModel<N, C>)
        ensures
            final(self).world == world,
            final(self).points@ == old(self).points@,
            final(self).lines@ == old(self).lines@,
            final(self).isometries@ == old(self).isometries@,
    {
        self.world = world;
    }

    /// The landmark records of the world.
    pub open spec fn spec_point_vertices(&self) -> Seq<Point<N, C>> {
        spec_points_to_vertices(self.world.spec_landmarks(), self.world.spec_colors().points)
    }

    /// The trajectory records of the world.
    pub open spec fn spec_line_vertices(&self) -> Seq<Line<N, C>> {
        spec_lines_to_vertices(
            spec_trajectory(spec_translations(self.world.spec_keyframes())),
            self.world.spec_colors().lines,
        )
    }

    /// `after` and `frame` are what one frame makes of the renderer `self`:
    /// every buffer took the records of its pipeline, and the snapshot stayed.
    pub open spec fn rendered(&self, after: &Self, sizes: RecordSizes, frame: WorldFrame) -> bool {
        &&& after.world == self.world
        &&& frame.points == self.points@.frame(self.spec_point_vertices(), sizes.point)
        &&& after.points@ == self.points@.after_frame(self.spec_point_vertices(), sizes.point)
        &&& frame.lines == self.lines@.frame(self.spec_line_vertices(), sizes.line)
        &&& after.lines@ == self.lines@.after_frame(self.spec_line_vertices(), sizes.line)
        &&& exists|glyphs: Seq<Isometry<N, C>>|
            {
                &&& #[trigger] are_glyphs_of(
                    glyphs,
                    spec_corners(self.world.spec_keyframes()),
                    self.world.spec_colors().isometries,
                )
                &&& frame.isometries == self.isometries@.frame(glyphs, sizes.isometry)
                &&& after.isometries@ == self.isometries@.after_frame(glyphs, sizes.isometry)
            }
    }

    /// Plans one frame: points, then lines, then glyphs, each from the
    /// current snapshot of the world.
    pub fn render(&mut self, sizes: RecordSizes) -> (frame: WorldFrame)
        ensures
            old(self).rendered(final(self), sizes, frame),
    {
        let point_color = self.world.point_color();
        let landmarks = self.world.collect_visual_points();
        let points = self.points.render(points_to_vertices(&landmarks, point_color), sizes.point);

        let line_color = self.world.line_color();
        let segments = self.world.collect_visual_lines();
        let lines = self.lines.render(lines_to_vertices(&segments, line_color), sizes.line);

        let glyph_color = self.world.isometry_color();
        let corners = self.world.collect_visual_isometries();
        let glyphs = corners_to_vertices(&corners, glyph_color);
        let ghost glyph_records = glyphs@;
        let isometries = self.isometries.render(glyphs, sizes.isometry);
        assert(are_glyphs_of(
            glyph_records,
            spec_corners(old(self).world.spec_keyframes()),
            old(self).world.spec_colors().isometries,
        ));
        WorldFrame { points, lines, isometries }
    }
}

} // verus!
