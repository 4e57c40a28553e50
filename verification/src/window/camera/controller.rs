use super::super::event::{
    ElementState, MouseButton, MouseScrollDelta, VirtualKeyCode, WindowEvent, WindowEventState,
};
use vstd::prelude::*;

verus! {

/// The speeds by which input moves the camera.
#[derive(Clone, Copy, Debug)]
pub struct CameraControllerConfig<N> {
    /// Orbit speed of a drag with the left mouse button.
    pub mouse_left_speed: N,
    /// Pan speed of a drag with the right mouse button.
    pub mouse_right_speed: N,
    /// Zoom speed of the scroll wheel.
    pub scroll_speed: N,
    /// Speed of the arrow and WASD keys.
    pub keyboard_speed: N,
}

/// One step of the cursor while a mouse button was held: the camera moves by
/// `to - from`.
#[derive(Clone, Copy, Debug)]
pub struct CursorMove<N> {
    pub from: CursorPos<N>,
    pub to: CursorPos<N>,
}

/// A position of the cursor inside the window.
#[derive(Clone, Copy, Debug)]
pub struct CursorPos<N> {
    pub x: N,
    pub y: N,
}

/// What the camera has to be moved by at one frame.
///
/// The cursor delta of the frame is the sum of `to - from` over
/// `cursor_moves`, divided by `window_size` component by component; the wheel
/// delta is the sum over `wheel_moves`.
pub struct CameraUpdate<N> {
    /// The size of the window in pixels.
    pub window_size: (u32, u32),
    /// The cursor steps since the last frame, oldest first.
    pub cursor_moves: Vec<CursorMove<N>>,
    /// The camera orbits by the cursor delta (left button held).
    pub rotate: bool,
    /// The camera pans by the cursor delta (right button held).
    pub pan: bool,
    /// The turns of the scroll wheel since the last frame, oldest first.
    pub wheel_moves: Vec<MouseScrollDelta<N>>,
    /// Sideways key motion: 1 for left, -1 for right, 0 for both or none.
    pub key_x: i8,
    /// Forward key motion: 1 for up, -1 for down, 0 for both or none.
    pub key_y: i8,
}

/// The state of a controller as contracts see it.
pub struct ControllerModel<N> {
    pub window_size: (u32, u32),
    /// The cursor steps collected since the last frame.
    pub cursor_moves: Seq<CursorMove<N>>,
    /// The last cursor position seen while a button was held, until a button
    /// changes its state.
    pub cursor_pos: Option<CursorPos<N>>,
    /// The wheel turns collected since the last frame.
    pub wheel_moves: Seq<MouseScrollDelta<N>>,
    pub is_left_mouse_pressed: bool,
    pub is_right_mouse_pressed: bool,
    pub is_left_key_pressed: bool,
    pub is_right_key_pressed: bool,
    pub is_up_key_pressed: bool,
    pub is_down_key_pressed: bool,
}

/// The motion of one key axis: 1 for the first key, -1 for the second, 0 for
/// both or none.
pub open spec fn key_axis(positive: bool, negative: bool) -> i8 {
    if positive && !negative {
        1i8
    } else if negative && !positive {
        -1i8
    } else {
        0i8
    }
}

impl<N> ControllerModel<N> {
    /// The state of a controller that has seen no event.
    pub open spec fn initial() -> Self {
        ControllerModel {
            window_size: (0u32, 0u32),
            cursor_moves: Seq::empty(),
            cursor_pos: None,
            wheel_moves: Seq::empty(),
            is_left_mouse_pressed: false,
            is_right_mouse_pressed: false,
            is_left_key_pressed: false,
            is_right_key_pressed: false,
            is_up_key_pressed: false,
            is_down_key_pressed: false,
        }
    }

    /// Whether the controller uses up `event` in this state.
    pub open spec fn answer(self, event: WindowEvent<N>) -> WindowEventState {
        match event {
            WindowEvent::KeyboardInput { state, virtual_keycode: Some(key) } => match key {
                VirtualKeyCode::Escape | VirtualKeyCode::Other => WindowEventState::Unused,
                _ => WindowEventState::Consumed,
            },
            WindowEvent::MouseInput { state, button } => match button {
                MouseButton::Left | MouseButton::Right => WindowEventState::Consumed,
                _ => WindowEventState::Unused,
            },
            WindowEvent::CursorMoved { x, y } => if self.is_left_mouse_pressed
                || self.is_right_mouse_pressed {
                WindowEventState::Consumed
            } else {
                WindowEventState::Unused
            },
            WindowEvent::MouseWheel { delta } => WindowEventState::Consumed,
            _ => WindowEventState::Unused,
        }
    }

    /// The state after `event`.
    pub open spec fn process(self, event: WindowEvent<N>) -> Self {
        match event {
            WindowEvent::Resized { width, height } => ControllerModel {
                window_size: (width, height),
                ..self
            },
            WindowEvent::KeyboardInput { state, virtual_keycode: Some(key) } => {
                let pressed = state == ElementState::Pressed;
                match key {
                    VirtualKeyCode::A | VirtualKeyCode::Left => ControllerModel {
                        is_left_key_pressed: pressed,
                        ..self
                    },
                    VirtualKeyCode::D | VirtualKeyCode::Right => ControllerModel {
                        is_right_key_pressed: pressed,
                        ..self
                    },
                    VirtualKeyCode::W | VirtualKeyCode::Up => ControllerModel {
                        is_up_key_pressed: pressed,
                        ..self
                    },
                    VirtualKeyCode::S | VirtualKeyCode::Down => ControllerModel {
                        is_down_key_pressed: pressed,
                        ..self
                    },
                    _ => self,
                }
            },
            WindowEvent::MouseInput { state, button } => {
                let pressed = state == ElementState::Pressed;
                match button {
                    MouseButton::Left => ControllerModel {
                        cursor_pos: None,
                        is_left_mouse_pressed: pressed,
                        ..self
                    },
                    MouseButton::Right => ControllerModel {
                        cursor_pos: None,
                        is_right_mouse_pressed: pressed,
                        ..self
                    },
                    _ => ControllerModel { cursor_pos: None, ..self },
                }
            },
            WindowEvent::CursorMoved { x, y } => if self.is_left_mouse_pressed
                || self.is_right_mouse_pressed {
                ControllerModel {
                    cursor_moves: match self.cursor_pos {
                        Some(from) => self.cursor_moves.push(
                            CursorMove { from, to: CursorPos { x, y } },
                        ),
                        None => self.cursor_moves,
                    },
                    cursor_pos: Some(CursorPos { x, y }),
                    ..self
                }
            } else {
                self
            },
            WindowEvent::MouseWheel { delta } => ControllerModel {
                wheel_moves: self.wheel_moves.push(delta),
                ..self
            },
            _ => self,
        }
    }

    /// The state after each of `events` in turn.
    pub open spec fn process_all(self, events: Seq<WindowEvent<N>>) -> Self
        decreases events.len(),
    {
        if events.len() == 0 {
            self
        } else {
            self.process_all(events.drop_last()).process(events.last())
        }
    }

    /// The state after a frame took what was collected: the cursor steps and
    /// wheel turns are gone, the keys, the buttons and the cursor position
    /// stay.
    pub open spec fn drained(self) -> Self {
        ControllerModel { cursor_moves: Seq::empty(), wheel_moves: Seq::empty(), ..self }
    }
}

/// The camera controller of one window.
pub struct CameraController<N> {
    config: CameraControllerConfig<N>,
    cursor_moves: Vec<CursorMove<N>>,
    cursor_pos: Option<CursorPos<N>>,
    wheel_moves: Vec<MouseScrollDelta<N>>,
    window_size: (u32, u32),
    is_left_mouse_pressed: bool,
    is_right_mouse_pressed: bool,
    is_left_key_pressed: bool,
    is_right_key_pressed: bool,
    is_up_key_pressed: bool,
    is_down_key_pressed: bool,
}

impl<N> View for CameraController<N> {
    type V = ControllerModel<N>;

    closed spec fn view(&self) -> ControllerModel<N> {
        ControllerModel {
            window_size: self.window_size,
            cursor_moves: self.cursor_moves@,
            cursor_pos: self.cursor_pos,
            wheel_moves: self.wheel_moves@,
            is_left_mouse_pressed: self.is_left_mouse_pressed,
            is_right_mouse_pressed: self.is_right_mouse_pressed,
            is_left_key_pressed: self.is_left_key_pressed,
            is_right_key_pressed: self.is_right_key_pressed,
            is_up_key_pressed: self.is_up_key_pressed,
            is_down_key_pressed: self.is_down_key_pressed,
        }
    }
}

impl<N: Copy> CameraController<N> {
    /// The speeds the controller was made with.
    pub closed spec fn spec_config(&self) -> CameraControllerConfig<N> {
        self.config
    }

    /// Makes a controller that has seen no event.
    pub fn new(config: CameraControllerConfig<N>) -> (controller: Self)
        ensures
            controller@ == ControllerModel::<N>::initial(),
            controller.spec_config() == config,
    {
        Self {
            config,
            cursor_moves: Vec::new(),
            cursor_pos: None,
            wheel_moves: Vec::new(),
            window_size: (0, 0),
            is_left_mouse_pressed: false,
            is_right_mouse_pressed: false,
            is_left_key_pressed: false,
            is_right_key_pressed: false,
            is_up_key_pressed: false,
            is_down_key_pressed: false,
        }
    }

    /// Returns the speeds the controller was made with.
    pub fn config(&self) -> (config: CameraControllerConfig<N>)
        ensures
            config == self.spec_config(),
    {
        self.config
    }

    /// Tells the controller the size of its window in pixels.
    pub fn set_window_size(&mut self, width: u32, height: u32)
        ensures
            final(self)@ == (ControllerModel { window_size: (width, height), ..old(self)@ }),
            final(self).spec_config() == old(self).spec_config(),
    {
        self.window_size = (width, height);
    }

    /// Takes in one event of the window and says whether it was used up.
    pub fn process_events(&mut self, event: &WindowEvent<N>) -> (state: WindowEventState)
        ensures
            final(self)@ == old(self)@.process(*event),
            state == old(self)@.answer(*event),
            final(self).spec_config() == old(self).spec_config(),
    {
        match event {
            WindowEvent::Resized { width, height } => {
                self.window_size = (*width, *height);
                WindowEventState::Unused
            },
            WindowEvent::KeyboardInput { state, virtual_keycode: Some(key) } => {
                let is_pressed = match state {
                    ElementState::Pressed => true,
                    ElementState::Released => false,
                };
                match key {
                    VirtualKeyCode::A | VirtualKeyCode::Left => {
                        self.is_left_key_pressed = is_pressed;
                        WindowEventState::Consumed
                    },
                    VirtualKeyCode::D | VirtualKeyCode::Right => {
                        self.is_right_key_pressed = is_pressed;
                        WindowEventState::Consumed
                    },
                    VirtualKeyCode::W | VirtualKeyCode::Up => {
                        self.is_up_key_pressed = is_pressed;
                        WindowEventState::Consumed
                    },
                    VirtualKeyCode::S | VirtualKeyCode::Down => {
                        self.is_down_key_pressed = is_pressed;
                        WindowEventState::Consumed
                    },
                    _ => WindowEventState::Unused,
                }
            },
            WindowEvent::MouseInput { state, button } => {
                self.cursor_pos = None;
                let is_pressed = match state {
                    ElementState::Pressed => true,
                    ElementState::Released => false,
                };
                match button {
                    MouseButton::Left => {
                        self.is_left_mouse_pressed = is_pressed;
                        WindowEventState::Consumed
                    },
                    MouseButton::Right => {
                        self.is_right_mouse_pressed = is_pressed;
                        WindowEventState::Consumed
                    },
                    _ => WindowEventState::Unused,
                }
            },
            WindowEvent::CursorMoved { x, y } => {
                if self.is_left_mouse_pressed || self.is_right_mouse_pressed {
                    let position = CursorPos { x: *x, y: *y };
                    match self.cursor_pos {
                        Some(from) => {
                            self.cursor_moves.push(CursorMove { from, to: position });
                        },
                        None => {},
                    }
                    self.cursor_pos = Some(position);
                    WindowEventState::Consumed
                } else {
                    WindowEventState::Unused
                }
            },
            WindowEvent::MouseWheel { delta } => {
                self.wheel_moves.push(*delta);
                WindowEventState::Consumed
            },
            _ => WindowEventState::Unused,
        }
    }

    /// Hands out what the camera has to be moved by at this frame and starts
    /// collecting for the next one.
    pub fn update_camera(&mut self) -> (update: CameraUpdate<N>)
        ensures
            final(self)@ == old(self)@.drained(),
            final(self).spec_config() == old(self).spec_config(),
            update.window_size == old(self)@.window_size,
            update.cursor_moves@ == old(self)@.cursor_moves,
            update.wheel_moves@ == old(self)@.wheel_moves,
            update.rotate == old(self)@.is_left_mouse_pressed,
            update.pan == old(self)@.is_right_mouse_pressed,
            update.key_x == key_axis(
                old(self)@.is_left_key_pressed,
                old(self)@.is_right_key_pressed,
            ),
            update.key_y == key_axis(old(self)@.is_up_key_pressed, old(self)@.is_down_key_pressed),
    {
        let mut cursor_moves: Vec<CursorMove<N>> = Vec::new();
        let mut wheel_moves: Vec<MouseScrollDelta<N>> = Vec::new();
        core::mem::swap(&mut self.cursor_moves, &mut cursor_moves);
        core::mem::swap(&mut self.wheel_moves, &mut wheel_moves);

        let mut key_x: i8 = 0;
        if self.is_left_key_pressed {
            key_x = key_x + 1;
        }
        if self.is_right_key_pressed {
            key_x = key_x - 1;
        }
        let mut key_y: i8 = 0;
        if self.is_up_key_pressed {
            key_y = key_y + 1;
        }
        if self.is_down_key_pressed {
            key_y = key_y - 1;
        }
        CameraUpdate {
            window_size: self.window_size,
            cursor_moves,
            rotate: self.is_left_mouse_pressed,
            pan: self.is_right_mouse_pressed,
            wheel_moves,
            key_x,
            key_y,
        }
    }
}

/// Once a mouse button has changed its state, the position the cursor had
/// before is forgotten: the next cursor event adds no step, whatever the
/// buttons did in between, so a release and a new press without a move leave
/// nothing for the next frame.
pub proof fn lemma_button_change_forgets_cursor<N>(
    controller: ControllerModel<N>,
    released: MouseButton,
    pressed: MouseButton,
    x: N,
    y: N,
)
    ensures
        ({
            let up = WindowEvent::MouseInput { state: ElementState::Released, button: released };
            let down = WindowEvent::MouseInput { state: ElementState::Pressed, button: pressed };
            let after = controller.process(up).process(down);
            &&& after.cursor_pos is None
            &&& after.cursor_moves == controller.cursor_moves
            &&& after.process(WindowEvent::CursorMoved { x, y }).cursor_moves
                == controller.cursor_moves
            &&& controller.drained().process(up).process(down).cursor_moves.len() == 0
            &&& controller.drained().process(up).process(down).process(
                WindowEvent::CursorMoved { x, y },
            ).cursor_moves.len() == 0
        }),
{
}

/// Events other than a cursor move with a button held never add a cursor
/// step, and events other than a turn of the wheel never add a wheel turn.
pub proof fn lemma_only_drags_and_wheel_collect<N>(
    controller: ControllerModel<N>,
    event: WindowEvent<N>,
)
    ensures
        !(event is CursorMoved) ==> controller.process(event).cursor_moves
            == controller.cursor_moves,
        !(event is MouseWheel) ==> controller.process(event).wheel_moves
            == controller.wheel_moves,
        controller.answer(event) == WindowEventState::Unused && !(event is Resized) && !(
        event is MouseInput) ==> controller.process(event) == controller,
{
}

} // verus!
