use slam_viewer::engine::base::Engine;
use slam_viewer::engine::registry::{EngineAction, Event, WindowRegistry};
use slam_viewer::window::base::Window;
use slam_viewer::window::builder::WindowBuilder;
use slam_viewer::window::camera::controller::CameraControllerConfig;
use slam_viewer::window::camera::frustrum::CameraFrustum;
use slam_viewer::window::event::{ElementState, VirtualKeyCode, WindowEvent};

fn engine(framerates: &[Option<u64>], now: u64) -> Engine<f32> {
    let mut registry = WindowRegistry::new();
    for (i, framerate) in framerates.iter().enumerate() {
        let builder = WindowBuilder {
            title: None,
            framerate: *framerate,
            camera: CameraFrustum {
                eye: [0.0, 2.0, 5.0],
                at: [0.0, 0.0, 0.0],
                fovy: 0.75,
                znear: 0.1,
                zfar: 100.0,
            },
            camera_controller: CameraControllerConfig {
                mouse_left_speed: 1.0,
                mouse_right_speed: 1.0,
                scroll_speed: 1.0,
                keyboard_speed: 1.0,
            },
        };
        registry.insert(i as u64 + 1, Window::new(&builder, 640, 480));
    }
    Engine::new(registry, now)
}

fn key(state: ElementState, code: VirtualKeyCode) -> WindowEvent<f32> {
    WindowEvent::KeyboardInput { state, virtual_keycode: Some(code) }
}

#[test]
fn engine_with_framerates_30_and_60_waits_like_the_30_one() {
    let e = engine(&[Some(30), Some(60)], 1_000);
    assert_eq!(e.wait(1_000), 32_833);
    assert_eq!(e.wait(11_000), 22_833);
    assert_eq!(e.wait(40_000), 0);
    let e = engine(&[Some(60), Some(30)], 0);
    assert_eq!(e.wait(0), 32_833);
    let e = engine(&[Some(60)], 0);
    assert_eq!(e.wait(0), 16_166);
}

#[test]
fn engine_without_framerates_never_waits() {
    let mut e = engine(&[None, None], 0);
    assert_eq!(e.wait(0), 0);
    e.restart(50);
    assert_eq!(e.wait(50), 0);
}

#[test]
fn engine_restart_begins_a_new_frame() {
    let mut e = engine(&[Some(120)], 0);
    assert_eq!(e.wait(7_000), 833);
    e.restart(8_000);
    assert_eq!(e.wait(8_000), 7_833);
    assert_eq!(e.window_ids(), vec![1]);
}

#[test]
fn engine_runs_until_an_event_ends_the_loop() {
    let mut e = engine(&[None], 0);
    assert!(e.is_running());
    let a = Event::WindowEvent { window_id: 1, event: key(ElementState::Pressed, VirtualKeyCode::A) };
    assert_eq!(e.handle(&a), EngineAction::Idle);
    assert_eq!(e.handle(&Event::MainEventsCleared), EngineAction::RequestRedraws);
    assert_eq!(e.handle(&Event::RedrawRequested { window_id: 1 }), EngineAction::Redraw { window_id: 1 });
    assert_eq!(e.update(1).unwrap().key_x, 1);
    assert!(e.update(9).is_none());
    assert!(e.is_running());

    let escape =
        Event::WindowEvent { window_id: 1, event: key(ElementState::Pressed, VirtualKeyCode::Escape) };
    assert_eq!(e.handle(&escape), EngineAction::Exit);
    assert!(!e.is_running());
}

#[test]
fn engine_takes_no_events_after_the_loop_was_left() {
    let mut e = engine(&[None], 0);
    let close = Event::WindowEvent { window_id: 1, event: WindowEvent::CloseRequested };
    assert_eq!(e.handle(&close), EngineAction::Exit);
    let d = Event::WindowEvent { window_id: 1, event: key(ElementState::Pressed, VirtualKeyCode::D) };
    assert_eq!(e.handle(&d), EngineAction::Idle);
    assert_eq!(e.handle(&Event::MainEventsCleared), EngineAction::Idle);
    assert_eq!(e.handle(&close), EngineAction::Idle);
    assert_eq!(e.update(1).unwrap().key_x, 0);
}
