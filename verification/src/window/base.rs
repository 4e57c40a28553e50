use super::builder::WindowBuilder;
use super::camera::{CameraController, CameraControllerConfig, CameraUpdate, ControllerModel};
use super::event::{WindowEvent, WindowEventState};
use vstd::prelude::*;

verus! {

/// The state of a window as contracts see it.
pub struct WindowModel<N> {
    pub controller: ControllerModel<N>,
    pub framerate: Option<u64>,
    /// Width and height of the surface the window draws to, in pixels.
    pub size: (u32, u32),
}

impl<N> WindowModel<N> {
    /// The state after the window took in `event`.
    pub open spec fn input(self, event: WindowEvent<N>) -> Self {
        WindowModel { controller: self.controller.process(event), ..self }
    }

    /// The state after the surface was made anew with the given size.
    pub open spec fn resized(self, width: u32, height: u32) -> Self {
        WindowModel { size: (width, height), ..self }
    }

    /// The state after a frame took what the controller had collected.
    pub open spec fn updated(self) -> Self {
        WindowModel { controller: self.controller.drained(), ..self }
    }
}

/// What one window keeps between events: its camera controller, the size of
/// its surface and the framerate it asks for.
pub struct Window<N> {
    camera_controller: CameraController<N>,
    framerate: Option<u64>,
    width: u32,
    height: u32,
}

impl<N> View for Window<N> {
    type V = WindowModel<N>;

    closed spec fn view(&self) -> WindowModel<N> {
        WindowModel {
            controller: self.camera_controller@,
            framerate: self.framerate,
            size: (self.width, self.height),
        }
    }
}

impl<N: Copy> Window<N> {
    /// The speeds of the window's camera controller.
    pub closed spec fn spec_config(&self) -> CameraControllerConfig<N> {
        self.camera_controller.spec_config()
    }

    /// Makes the state of a window built from `builder` whose surface has the
    /// given size: the controller has seen no event but knows the size.
    pub fn new(builder: &WindowBuilder<N>, width: u32, height: u32) -> (window: Self)
        ensures
            window@ == (WindowModel {
                controller: ControllerModel {
                    window_size: (width, height),
                    ..ControllerModel::<N>::initial()
                },
                framerate: builder.framerate,
                size: (width, height),
            }),
            window.spec_config() == builder.camera_controller,
    {
        let mut camera_controller = CameraController::new(builder.camera_controller);
        camera_controller.set_window_size(width, height);
        Self { camera_controller, framerate: builder.framerate, width, height }
    }

    /// Returns the number of frames per second the window asks for.
    pub fn framerate(&self) -> (framerate: Option<u64>)
        ensures
            framerate == self@.framerate,
    {
        self.framerate
    }

    /// Returns the width and height of the surface; their quotient is the
    /// aspect ratio of the projection.
    pub fn size(&self) -> (size: (u32, u32))
        ensures
            size == self@.size,
    {
        (self.width, self.height)
    }

    /// Returns the speeds of the window's camera controller.
    pub fn config(&self) -> (config: CameraControllerConfig<N>)
        ensures
            config == self.spec_config(),
    {
        self.camera_controller.config()
    }

    /// Records the size of the surface after it was made anew.
    pub fn resize(&mut self, width: u32, height: u32)
        ensures
            final(self)@ == old(self)@.resized(width, height),
            final(self).spec_config() == old(self).spec_config(),
    {
        self.width = width;
        self.height = height;
    }

    /// Hands an event to the camera controller and says whether it used it.
    pub fn input(&mut self, event: &WindowEvent<N>) -> (state: WindowEventState)
        ensures
            final(self)@ == old(self)@.input(*event),
            state == old(self)@.controller.answer(*event),
            final(self).spec_config() == old(self).spec_config(),
    {
        self.camera_controller.process_events(event)
    }

    /// Starts a frame: hands out what the camera has to be moved by.
    pub fn update(&mut self) -> (update: CameraUpdate<N>)
        ensures
            final(self)@ == old(self)@.updated(),
            final(self).spec_config() == old(self).spec_config(),
            update.window_size == old(self)@.controller.window_size,
            update.cursor_moves@ == old(self)@.controller.cursor_moves,
            update.wheel_moves@ == old(self)@.controller.wheel_moves,
            update.rotate == old(self)@.controller.is_left_mouse_pressed,
            update.pan == old(self)@.controller.is_right_mouse_pressed,
            update.key_x == super::camera::controller::key_axis(
                old(self)@.controller.is_left_key_pressed,
                old(self)@.controller.is_right_key_pressed,
            ),
            update.key_y == super::camera::controller::key_axis(
                old(self)@.controller.is_up_key_pressed,
                old(self)@.controller.is_down_key_pressed,
            ),
    {
        self.camera_controller.update_camera()
    }
}

} // verus!
