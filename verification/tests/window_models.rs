use slam_viewer::pipes::buffer::{BufferAction, DrawCall, RenderStep};
use slam_viewer::window::camera::controller::CameraControllerConfig;
use slam_viewer::window::camera::frustrum::CameraFrustum;
use slam_viewer::window::isometries::isometry::Corners;
use slam_viewer::window::isometries::renderer::IsometriesRendener;
use slam_viewer::window::isometries::source::IsometrySource;
use slam_viewer::window::lines::line::Segment;
use slam_viewer::window::lines::renderer::LinesRendener;
use slam_viewer::window::lines::source::LineSource;
use slam_viewer::window::models::matches::{FeatureMatch, MatchesModel, MatchesRenderer};
use slam_viewer::window::models::points::PointsModel;
use slam_viewer::window::models::world::{
    trajectory, KeyFrame, RecordSizes, WorldColors, WorldModel, WorldRenderer,
};
use slam_viewer::window::points::point::Point3;
use slam_viewer::window::points::renderer::PointsRendener;
use slam_viewer::window::points::source::PointSource;

const RED: Point3<f32> = Point3 { x: 1.0, y: 0.0, z: 0.0 };
const GREEN: Point3<f32> = Point3 { x: 0.0, y: 1.0, z: 0.0 };
const BLUE: Point3<f32> = Point3 { x: 0.0, y: 0.0, z: 1.0 };
const COLORS: WorldColors<f32> = WorldColors { points: RED, lines: BLUE, isometries: GREEN };
const SIZES: RecordSizes = RecordSizes { point: 24, line: 48, isometry: 288 };

fn p(x: f32, y: f32, z: f32) -> Point3<f32> {
    Point3 { x, y, z }
}

fn xyz(p: Point3<f32>) -> (f32, f32, f32) {
    (p.x, p.y, p.z)
}

fn keyframe(t: Point3<f32>) -> KeyFrame<f32> {
    KeyFrame {
        translation: t,
        corners: Corners {
            bottom_left: p(t.x - 0.2, t.y - 0.16, t.z),
            top_right: p(t.x + 0.2, t.y + 0.16, t.z),
            top_left: p(t.x - 0.2, t.y + 0.16, t.z),
            bottom_right: p(t.x + 0.2, t.y - 0.16, t.z),
        },
    }
}

fn camera() -> CameraFrustum<f32> {
    CameraFrustum {
        eye: [0.0, 2.0, 5.0],
        at: [0.0, 0.0, 0.0],
        fovy: std::f32::consts::FRAC_PI_4,
        znear: 0.1,
        zfar: 100.0,
    }
}

fn speeds() -> CameraControllerConfig<f32> {
    CameraControllerConfig {
        mouse_left_speed: 1.0,
        mouse_right_speed: 1.0,
        scroll_speed: 1.0,
        keyboard_speed: 1.0,
    }
}

fn four_points() -> Vec<Point3<f32>> {
    vec![p(-0.1, -0.1, 0.0), p(0.0, 0.1, 0.0), p(0.1, -0.1, 0.0), p(0.0, 0.0, 0.0)]
}

#[test]
fn four_points_fill_the_point_buffer() {
    let mut renderer = PointsRendener::new(PointsModel::new(four_points(), RED));
    let step = renderer.render(24);
    assert_eq!(
        step,
        Some(RenderStep {
            upload: BufferAction::Allocate { records: 4 },
            draw: Some(DrawCall { byte_len: 96, vertex_count: 4 }),
        })
    );
    let records = renderer.buffer.records().unwrap();
    assert_eq!(records.len(), 4);
    let mut got: Vec<(f32, f32, f32)> = records.iter().map(|r| xyz(r.position)).collect();
    let mut want: Vec<(f32, f32, f32)> = four_points().into_iter().map(xyz).collect();
    got.sort_by(|a, b| a.partial_cmp(b).unwrap());
    want.sort_by(|a, b| a.partial_cmp(b).unwrap());
    assert_eq!(got, want);
    for record in records {
        assert_eq!(xyz(record.color), (1.0, 0.0, 0.0));
    }
}

#[test]
fn rendering_twice_gives_the_same_records() {
    let mut renderer = PointsRendener::new(PointsModel::new(four_points(), RED));
    renderer.render(24);
    let step = renderer.render(24);
    assert_eq!(
        step,
        Some(RenderStep {
            upload: BufferAction::Rewrite { records: 4 },
            draw: Some(DrawCall { byte_len: 96, vertex_count: 4 }),
        })
    );
    assert_eq!(renderer.buffer.records().unwrap().len(), 4);
    assert_eq!(renderer.buffer.capacity(), 4);
}

#[test]
fn render_points_draws_what_it_is_given() {
    let mut renderer = PointsRendener::new(PointsModel::new(vec![], RED));
    let step = renderer.render_points(&four_points(), GREEN, 24);
    assert_eq!(step.unwrap().draw.unwrap().vertex_count, 4);
    assert_eq!(xyz(renderer.buffer.records().unwrap()[3].color), (0.0, 1.0, 0.0));
    let step = renderer.render(24);
    assert_eq!(
        step,
        Some(RenderStep {
            upload: BufferAction::Rewrite { records: 0 },
            draw: Some(DrawCall { byte_len: 0, vertex_count: 0 }),
        })
    );
}

#[test]
fn twenty_keyframes_give_a_trajectory_of_nineteen_steps() {
    let positions: Vec<Point3<f32>> =
        (0..20).map(|i| p(i as f32 * 0.1, 0.0, -0.5 * i as f32)).collect();
    let segments = trajectory(&positions);
    assert_eq!(segments.len(), 20);
    assert_eq!(xyz(segments[0].start), xyz(positions[0]));
    assert_eq!(xyz(segments[0].end), xyz(positions[0]));
    let steps: Vec<&Segment<f32>> =
        segments.iter().filter(|s| xyz(s.start) != xyz(s.end)).collect();
    assert_eq!(steps.len(), 19);
    for i in 1..20 {
        assert_eq!(xyz(segments[i].start), xyz(positions[i - 1]));
        assert_eq!(xyz(segments[i].end), xyz(positions[i]));
    }
}

#[test]
fn trajectory_of_nothing_and_of_one_keyframe() {
    assert!(trajectory(&Vec::<Point3<f32>>::new()).is_empty());
    let one = trajectory(&vec![p(1.0, 2.0, 3.0)]);
    assert_eq!(one.len(), 1);
    assert_eq!(xyz(one[0].start), (1.0, 2.0, 3.0));
    assert_eq!(xyz(one[0].end), (1.0, 2.0, 3.0));
}

#[test]
fn world_is_a_source_of_points_lines_and_poses() {
    let keyframes: Vec<KeyFrame<f32>> =
        (0..20).map(|i| keyframe(p(0.0, 0.0, -0.5 * i as f32))).collect();
    let world = WorldModel::new(four_points(), keyframes, COLORS);
    assert_eq!(world.collect_visual_points().len(), 4);
    assert_eq!(xyz(world.collect_visual_points()[1]), (0.0, 0.1, 0.0));
    assert_eq!(xyz(world.point_color()), (1.0, 0.0, 0.0));
    assert_eq!(xyz(world.line_color()), (0.0, 0.0, 1.0));
    assert_eq!(xyz(world.isometry_color()), (0.0, 1.0, 0.0));

    let lines = world.collect_visual_lines();
    assert_eq!(lines.len(), 20);
    assert_eq!(xyz(lines[0].start), xyz(lines[0].end));
    assert_eq!(xyz(lines[19].start), (0.0, 0.0, -9.0));
    assert_eq!(xyz(lines[19].end), (0.0, 0.0, -9.5));

    let poses = world.collect_visual_isometries();
    assert_eq!(poses.len(), 20);
    assert_eq!(xyz(poses[2].top_right), (0.2, 0.16, -1.0));
    assert_eq!(world.translations().len(), 20);
    assert_eq!(xyz(world.translations()[3]), (0.0, 0.0, -1.5));
}

#[test]
fn world_renderer_plans_three_pipelines() {
    let keyframes: Vec<KeyFrame<f32>> =
        (0..20).map(|i| keyframe(p(0.0, 0.0, -0.5 * i as f32))).collect();
    let mut renderer = WorldRenderer::new(WorldModel::new(four_points(), keyframes, COLORS));
    let frame = renderer.render(SIZES);
    assert_eq!(
        frame.points,
        Some(RenderStep {
            upload: BufferAction::Allocate { records: 4 },
            draw: Some(DrawCall { byte_len: 96, vertex_count: 4 }),
        })
    );
    assert_eq!(
        frame.lines,
        Some(RenderStep {
            upload: BufferAction::Allocate { records: 20 },
            draw: Some(DrawCall { byte_len: 960, vertex_count: 40 }),
        })
    );
    assert_eq!(
        frame.isometries,
        Some(RenderStep {
            upload: BufferAction::Allocate { records: 20 },
            draw: Some(DrawCall { byte_len: 5760, vertex_count: 240 }),
        })
    );
    assert_eq!(xyz(renderer.lines.records().unwrap()[1].start.color), (0.0, 0.0, 1.0));
    assert_eq!(xyz(renderer.isometries.records().unwrap()[0].lines()[0].end.color), (0.0, 1.0, 0.0));

    renderer.set_world(WorldModel::new(vec![p(0.0, 0.0, 0.0)], vec![], COLORS));
    let frame = renderer.render(SIZES);
    assert_eq!(
        frame.points,
        Some(RenderStep {
            upload: BufferAction::Rewrite { records: 1 },
            draw: Some(DrawCall { byte_len: 24, vertex_count: 1 }),
        })
    );
    assert_eq!(frame.lines.unwrap().draw.unwrap().vertex_count, 0);
    assert_eq!(frame.isometries.unwrap().draw.unwrap().vertex_count, 0);
    assert_eq!(renderer.points.capacity(), 4);
    assert_eq!(renderer.lines.capacity(), 20);
    assert_eq!(renderer.isometries.capacity(), 20);
}

#[test]
fn generic_renderers_pull_from_any_source() {
    let keyframes: Vec<KeyFrame<f32>> = (0..3).map(|i| keyframe(p(i as f32, 0.0, 0.0))).collect();
    let mut lines = LinesRendener::new(WorldModel::new(vec![], keyframes.clone(), COLORS));
    assert_eq!(lines.render(48).unwrap().draw.unwrap().vertex_count, 6);
    assert_eq!(xyz(lines.buffer.records().unwrap()[2].start.position), (1.0, 0.0, 0.0));
    assert_eq!(xyz(lines.buffer.records().unwrap()[2].end.position), (2.0, 0.0, 0.0));
    assert_eq!(xyz(lines.buffer.records().unwrap()[2].end.color), (0.0, 0.0, 1.0));
    let step = lines.render_lines(&vec![], BLUE, 48);
    assert_eq!(step.unwrap().upload, BufferAction::Rewrite { records: 0 });

    let mut glyphs = IsometriesRendener::new(WorldModel::new(vec![], keyframes, COLORS));
    assert_eq!(
        glyphs.render(288),
        Some(RenderStep {
            upload: BufferAction::Allocate { records: 3 },
            draw: Some(DrawCall { byte_len: 864, vertex_count: 36 }),
        })
    );
    let poses = glyphs.source.collect_visual_isometries();
    let step = glyphs.render_corners(&poses[..1].to_vec(), GREEN, 288);
    assert_eq!(step.unwrap().draw.unwrap().vertex_count, 12);
    assert_eq!(glyphs.buffer.capacity(), 3);
}

#[test]
fn matches_are_drawn_as_end_points_and_segments() {
    let matches = vec![
        FeatureMatch { first: p(0.0, 0.0, 0.0), second: p(1.0, 0.0, 0.0) },
        FeatureMatch { first: p(0.0, 1.0, 0.0), second: p(1.0, 1.0, 0.0) },
        FeatureMatch { first: p(0.0, 2.0, 0.0), second: p(1.0, 2.0, 0.0) },
    ];
    let model = MatchesModel::new(matches, RED, BLUE);
    let points = model.collect_visual_points();
    assert_eq!(
        points.iter().map(|q| xyz(*q)).collect::<Vec<_>>(),
        vec![
            (0.0, 0.0, 0.0),
            (1.0, 0.0, 0.0),
            (0.0, 1.0, 0.0),
            (1.0, 1.0, 0.0),
            (0.0, 2.0, 0.0),
            (1.0, 2.0, 0.0),
        ]
    );
    let lines = model.collect_visual_lines();
    assert_eq!(lines.len(), 3);
    assert_eq!(xyz(lines[1].start), (0.0, 1.0, 0.0));
    assert_eq!(xyz(lines[1].end), (1.0, 1.0, 0.0));
    assert_eq!(xyz(model.point_color()), (1.0, 0.0, 0.0));
    assert_eq!(xyz(model.line_color()), (0.0, 0.0, 1.0));

    let mut renderer = MatchesRenderer::new(model);
    let frame = renderer.render(24, 48);
    let points_step = Some(RenderStep {
        upload: BufferAction::Allocate { records: 6 },
        draw: Some(DrawCall { byte_len: 144, vertex_count: 6 }),
    });
    assert_eq!(frame.points_1, points_step);
    assert_eq!(frame.points_2, points_step);
    assert_eq!(
        frame.lines,
        Some(RenderStep {
            upload: BufferAction::Allocate { records: 3 },
            draw: Some(DrawCall { byte_len: 144, vertex_count: 6 }),
        })
    );
}

#[test]
fn default_windows() {
    let world = WorldModel::new(vec![], vec![], COLORS).default_window(camera(), speeds());
    assert_eq!(world.title.as_deref(), Some("Map Viewer"));
    assert_eq!(world.framerate, Some(120));
    assert_eq!(world.camera.eye, [0.0, 2.0, 5.0]);
    assert_eq!(world.camera_controller.scroll_speed, 1.0);

    let points = PointsModel::new(vec![], RED).default_window(camera(), speeds());
    assert_eq!(points.title.as_deref(), Some("2d Points Viewer"));
    assert_eq!(points.framerate, Some(120));

    let matches = MatchesModel::new(vec![], RED, BLUE).default_window(camera(), speeds());
    assert_eq!(matches.title.as_deref(), Some("Matches Viewer"));
    assert_eq!(matches.framerate, Some(120));
    assert_eq!(matches.camera.zfar, 100.0);
}
