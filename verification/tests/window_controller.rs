use slam_viewer::window::camera::controller::{
    CameraController, CameraControllerConfig, CameraUpdate,
};
use slam_viewer::window::event::{
    ElementState, MouseButton, MouseScrollDelta, VirtualKeyCode, WindowEvent, WindowEventState,
};

fn controller() -> CameraController<f64> {
    CameraController::new(CameraControllerConfig {
        mouse_left_speed: 2.0,
        mouse_right_speed: 3.0,
        scroll_speed: 0.5,
        keyboard_speed: 0.25,
    })
}

fn key(state: ElementState, code: VirtualKeyCode) -> WindowEvent<f64> {
    WindowEvent::KeyboardInput { state, virtual_keycode: Some(code) }
}

fn button(state: ElementState, button: MouseButton) -> WindowEvent<f64> {
    WindowEvent::MouseInput { state, button }
}

fn moved(x: f64, y: f64) -> WindowEvent<f64> {
    WindowEvent::CursorMoved { x, y }
}

fn cursor_delta(update: &CameraUpdate<f64>) -> (f64, f64) {
    let mut d = (0.0, 0.0);
    for m in &update.cursor_moves {
        d.0 += m.to.x - m.from.x;
        d.1 += m.to.y - m.from.y;
    }
    d
}

#[test]
fn new_controller_has_nothing_to_hand_out() {
    let mut c = controller();
    assert_eq!(c.config().mouse_left_speed, 2.0);
    assert_eq!(c.config().keyboard_speed, 0.25);
    let update = c.update_camera();
    assert_eq!(update.window_size, (0, 0));
    assert!(update.cursor_moves.is_empty());
    assert!(update.wheel_moves.is_empty());
    assert!(!update.rotate);
    assert!(!update.pan);
    assert_eq!((update.key_x, update.key_y), (0, 0));
}

#[test]
fn resize_is_recorded_and_passed_on() {
    let mut c = controller();
    let state = c.process_events(&WindowEvent::Resized { width: 800, height: 600 });
    assert_eq!(state, WindowEventState::Unused);
    assert_eq!(c.update_camera().window_size, (800, 600));
    c.set_window_size(640, 480);
    assert_eq!(c.update_camera().window_size, (640, 480));
}

#[test]
fn movement_keys_are_consumed_and_held() {
    let mut c = controller();
    for code in [VirtualKeyCode::A, VirtualKeyCode::Left] {
        assert_eq!(c.process_events(&key(ElementState::Pressed, code)), WindowEventState::Consumed);
        assert_eq!(c.update_camera().key_x, 1);
        assert_eq!(c.update_camera().key_x, 1);
        assert_eq!(c.process_events(&key(ElementState::Released, code)), WindowEventState::Consumed);
        assert_eq!(c.update_camera().key_x, 0);
    }
    for code in [VirtualKeyCode::D, VirtualKeyCode::Right] {
        c.process_events(&key(ElementState::Pressed, code));
        assert_eq!(c.update_camera().key_x, -1);
        c.process_events(&key(ElementState::Released, code));
    }
    for code in [VirtualKeyCode::W, VirtualKeyCode::Up] {
        c.process_events(&key(ElementState::Pressed, code));
        assert_eq!(c.update_camera().key_y, 1);
        c.process_events(&key(ElementState::Released, code));
    }
    for code in [VirtualKeyCode::S, VirtualKeyCode::Down] {
        c.process_events(&key(ElementState::Pressed, code));
        assert_eq!(c.update_camera().key_y, -1);
        c.process_events(&key(ElementState::Released, code));
    }
}

#[test]
fn opposite_keys_cancel() {
    let mut c = controller();
    c.process_events(&key(ElementState::Pressed, VirtualKeyCode::A));
    c.process_events(&key(ElementState::Pressed, VirtualKeyCode::Right));
    c.process_events(&key(ElementState::Pressed, VirtualKeyCode::Up));
    let update = c.update_camera();
    assert_eq!((update.key_x, update.key_y), (0, 1));
}

#[test]
fn other_keys_pass_on() {
    let mut c = controller();
    assert_eq!(
        c.process_events(&key(ElementState::Pressed, VirtualKeyCode::Escape)),
        WindowEventState::Unused
    );
    assert_eq!(
        c.process_events(&key(ElementState::Pressed, VirtualKeyCode::Other)),
        WindowEventState::Unused
    );
    assert_eq!(
        c.process_events(&WindowEvent::KeyboardInput {
            state: ElementState::Pressed,
            virtual_keycode: None,
        }),
        WindowEventState::Unused
    );
    assert_eq!(c.process_events(&WindowEvent::CloseRequested), WindowEventState::Unused);
    assert_eq!(c.process_events(&WindowEvent::Other), WindowEventState::Unused);
    assert_eq!(
        c.process_events(&WindowEvent::ScaleFactorChanged { width: 1, height: 1 }),
        WindowEventState::Unused
    );
    let update = c.update_camera();
    assert_eq!((update.key_x, update.key_y), (0, 0));
    assert_eq!(update.window_size, (0, 0));
}

#[test]
fn cursor_moves_without_a_button_pass_on() {
    let mut c = controller();
    assert_eq!(c.process_events(&moved(10.0, 10.0)), WindowEventState::Unused);
    assert_eq!(c.process_events(&moved(20.0, 30.0)), WindowEventState::Unused);
    assert!(c.update_camera().cursor_moves.is_empty());
}

#[test]
fn left_drag_collects_the_steps_of_the_cursor() {
    let mut c = controller();
    assert_eq!(
        c.process_events(&button(ElementState::Pressed, MouseButton::Left)),
        WindowEventState::Consumed
    );
    assert_eq!(c.process_events(&moved(10.0, 10.0)), WindowEventState::Consumed);
    assert_eq!(c.process_events(&moved(14.0, 7.0)), WindowEventState::Consumed);
    assert_eq!(c.process_events(&moved(15.0, 9.0)), WindowEventState::Consumed);
    let update = c.update_camera();
    assert!(update.rotate);
    assert!(!update.pan);
    assert_eq!(update.cursor_moves.len(), 2);
    assert_eq!((update.cursor_moves[0].from.x, update.cursor_moves[0].from.y), (10.0, 10.0));
    assert_eq!((update.cursor_moves[0].to.x, update.cursor_moves[0].to.y), (14.0, 7.0));
    assert_eq!((update.cursor_moves[1].from.x, update.cursor_moves[1].from.y), (14.0, 7.0));
    assert_eq!(cursor_delta(&update), (5.0, -1.0));
}

#[test]
fn right_drag_pans() {
    let mut c = controller();
    c.process_events(&button(ElementState::Pressed, MouseButton::Right));
    c.process_events(&moved(0.0, 0.0));
    c.process_events(&moved(1.0, 2.0));
    let update = c.update_camera();
    assert!(update.pan);
    assert!(!update.rotate);
    assert_eq!(cursor_delta(&update), (1.0, 2.0));
}

#[test]
fn update_hands_every_step_out_once() {
    let mut c = controller();
    c.process_events(&button(ElementState::Pressed, MouseButton::Left));
    c.process_events(&moved(0.0, 0.0));
    c.process_events(&moved(3.0, 4.0));
    assert_eq!(c.update_camera().cursor_moves.len(), 1);
    let again = c.update_camera();
    assert!(again.cursor_moves.is_empty());
    assert!(again.rotate);
    c.process_events(&moved(4.0, 4.0));
    let next = c.update_camera();
    assert_eq!(cursor_delta(&next), (1.0, 0.0));
}

#[test]
fn release_and_press_without_a_move_leave_no_delta() {
    let mut c = controller();
    c.process_events(&button(ElementState::Pressed, MouseButton::Left));
    c.process_events(&moved(100.0, 100.0));
    c.process_events(&moved(110.0, 100.0));
    c.update_camera();
    c.process_events(&button(ElementState::Released, MouseButton::Left));
    c.process_events(&button(ElementState::Pressed, MouseButton::Left));
    let update = c.update_camera();
    assert!(update.cursor_moves.is_empty());
    assert_eq!(cursor_delta(&update), (0.0, 0.0));
}

#[test]
fn first_move_after_a_new_press_does_not_jump() {
    let mut c = controller();
    c.process_events(&button(ElementState::Pressed, MouseButton::Left));
    c.process_events(&moved(0.0, 0.0));
    c.process_events(&moved(5.0, 5.0));
    c.update_camera();
    c.process_events(&button(ElementState::Released, MouseButton::Left));
    c.process_events(&moved(900.0, 900.0));
    c.process_events(&button(ElementState::Pressed, MouseButton::Left));
    c.process_events(&moved(500.0, 500.0));
    let update = c.update_camera();
    assert!(update.cursor_moves.is_empty());
    c.process_events(&moved(501.0, 502.0));
    assert_eq!(cursor_delta(&c.update_camera()), (1.0, 2.0));
}

#[test]
fn other_mouse_buttons_pass_on_but_reset_the_cursor() {
    let mut c = controller();
    c.process_events(&button(ElementState::Pressed, MouseButton::Left));
    c.process_events(&moved(0.0, 0.0));
    assert_eq!(
        c.process_events(&button(ElementState::Pressed, MouseButton::Middle)),
        WindowEventState::Unused
    );
    assert_eq!(
        c.process_events(&button(ElementState::Released, MouseButton::Other)),
        WindowEventState::Unused
    );
    c.process_events(&moved(50.0, 50.0));
    let update = c.update_camera();
    assert!(update.rotate);
    assert!(update.cursor_moves.is_empty());
}

#[test]
fn wheel_turns_are_consumed_and_collected_in_order() {
    let mut c = controller();
    let line = WindowEvent::MouseWheel { delta: MouseScrollDelta::LineDelta { x: 0.0, y: 1.5 } };
    let pixel = WindowEvent::MouseWheel { delta: MouseScrollDelta::PixelDelta { x: 3.0, y: -2.0 } };
    assert_eq!(c.process_events(&line), WindowEventState::Consumed);
    assert_eq!(c.process_events(&pixel), WindowEventState::Consumed);
    let update = c.update_camera();
    assert_eq!(update.wheel_moves.len(), 2);
    assert!(matches!(update.wheel_moves[0], MouseScrollDelta::LineDelta { x, y } if x == 0.0 && y == 1.5));
    assert!(matches!(update.wheel_moves[1], MouseScrollDelta::PixelDelta { x, y } if x == 3.0 && y == -2.0));
    assert!(c.update_camera().wheel_moves.is_empty());
}
