use crate::render::renderer::{Size, SurfaceError};
use vstd::prelude::*;

verus! {

/// Whether a key went down or came up.
#[derive(Clone, Copy, Debug, PartialEq, Eq, Structural)]
pub enum ElementState {
    Pressed,
    Released,
}

/// The ways the camera can be moved with keys.
#[derive(Clone, Copy, Debug, PartialEq, Eq, Structural)]
pub enum Direction {
    Forward,
    Backward,
    Left,
    Right,
    Up,
    Down,
}

/// A physical key, by what it means here.
#[derive(Clone, Copy, Debug, PartialEq, Eq, Structural)]
pub enum Key {
    Escape,
    /// A key bound to moving the camera.
    Move(Direction),
    /// Any other key.
    Other,
}

/// An event of the window.
#[derive(Clone, Copy, Debug, PartialEq, Eq, Structural)]
pub enum WindowEvent {
    CloseRequested,
    Resized(Size),
    RedrawRequested,
    MouseWheel,
    KeyboardInput { key: Key, state: ElementState },
    /// Any other event.
    Other,
}

/// An event of an input device, whichever window has the focus.
#[derive(Clone, Copy, Debug, PartialEq, Eq, Structural)]
pub enum DeviceEvent {
    /// The pointer moved.
    MouseMotion,
    /// Any other event.
    Other,
}

/// Whether the pointer is held inside the window.
#[derive(Clone, Copy, Debug, PartialEq, Eq, Structural)]
pub enum CursorGrab {
    Free,
    Locked,
}

/// How the window's cursor was last asked to behave.
#[derive(Clone, Copy, Debug, PartialEq, Eq, Structural)]
pub struct Cursor {
    pub visible: bool,
    pub grab: CursorGrab,
}

/// Something for the caller to do to the window, the surface or the camera, in
/// answer to an event. Effects are carried out in the order they are given.
#[derive(Clone, Copy, Debug, PartialEq, Eq, Structural)]
pub enum Effect {
    /// Leave the event loop.
    Exit,
    /// Configure the surface for this size.
    ConfigureSurface(Size),
    /// Give the camera's projection the aspect ratio of this size.
    ResizeCamera(Size),
    /// Advance the scene and the renderer by `dt` nanoseconds.
    Update { dt: u64 },
    /// Acquire a frame from the surface and hand the outcome to `GameState::redraw`.
    Render,
    /// Hand the wheel's movement to the camera controller.
    Scroll,
    /// Move the cursor to this place in the window.
    SetCursorPosition { x: u32, y: u32 },
    SetCursorGrab(CursorGrab),
    SetCursorVisible(bool),
    /// Write the error to the log.
    Log(SurfaceError),
}

} // verus!
