use vstd::prelude::*;

verus! {

/// Whether an event was used up by the component it was handed to.
#[derive(Clone, Copy, Debug, PartialEq, Eq, Structural)]
pub enum WindowEventState {
    /// The event was used and must not be interpreted again.
    Consumed,
    /// The event was not used and passes on.
    Unused,
}

/// The state of a key or a mouse button.
#[derive(Clone, Copy, Debug, PartialEq, Eq, Structural)]
pub enum ElementState {
    Pressed,
    Released,
}

/// The keys the viewer tells apart.
#[derive(Clone, Copy, Debug, PartialEq, Eq, Structural)]
pub enum VirtualKeyCode {
    A,
    D,
    S,
    W,
    Left,
    Right,
    Up,
    Down,
    Escape,
    /// Any other key.
    Other,
}

/// The mouse buttons the viewer tells apart.
#[derive(Clone, Copy, Debug, PartialEq, Eq, Structural)]
pub enum MouseButton {
    Left,
    Right,
    Middle,
    /// Any other button.
    Other,
}

/// One turn of the scroll wheel, in lines or in pixels.
#[derive(Clone, Copy, Debug)]
pub enum MouseScrollDelta<N> {
    LineDelta { x: N, y: N },
    PixelDelta { x: N, y: N },
}

/// An event of one window, with coordinates of scalar type `N`.
#[derive(Clone, Copy, Debug)]
pub enum WindowEvent<N> {
    /// The window has a new size in pixels.
    Resized { width: u32, height: u32 },
    /// The user asked to close the window.
    CloseRequested,
    /// A key changed its state; `virtual_keycode` is `None` for a key
    /// without a known meaning.
    KeyboardInput { state: ElementState, virtual_keycode: Option<VirtualKeyCode> },
    /// A mouse button changed its state.
    MouseInput { state: ElementState, button: MouseButton },
    /// The cursor moved to a position inside the window.
    CursorMoved { x: N, y: N },
    /// The scroll wheel turned.
    MouseWheel { delta: MouseScrollDelta<N> },
    /// The scale factor changed and the window has a new size in pixels.
    ScaleFactorChanged { width: u32, height: u32 },
    /// Any other event.
    Other,
}

} // verus!
