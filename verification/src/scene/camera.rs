use crate::event::{Direction, ElementState, Key, WindowEvent};
use vstd::prelude::*;

verus! {

/// The movement keys that are held down. A key counts as held from its press to
/// its release, however many frames pass in between.
#[derive(Clone, Copy, Debug, PartialEq, Eq, Structural)]
pub struct CameraController {
    pub forward: bool,
    pub backward: bool,
    pub left: bool,
    pub right: bool,
    pub up: bool,
    pub down: bool,
}

impl CameraController {
    /// The controller with no key held.
    pub open spec fn new_spec() -> CameraController {
        CameraController {
            forward: false,
            backward: false,
            left: false,
            right: false,
            up: false,
            down: false,
        }
    }

    #[verifier::when_used_as_spec(new_spec)]
    pub fn new() -> (controller: CameraController)
        ensures
            controller == Self::new_spec(),
    {
        CameraController {
            forward: false,
            backward: false,
            left: false,
            right: false,
            up: false,
            down: false,
        }
    }

    /// Whether the key for a direction is held.
    pub open spec fn pressed(self, direction: Direction) -> bool {
        match direction {
            Direction::Forward => self.forward,
            Direction::Backward => self.backward,
            Direction::Left => self.left,
            Direction::Right => self.right,
            Direction::Up => self.up,
            Direction::Down => self.down,
        }
    }

    /// The controller after the key for a direction went down or came up.
    pub open spec fn with_key(self, direction: Direction, state: ElementState) -> CameraController {
        let held = state is Pressed;
        match direction {
            Direction::Forward => CameraController { forward: held, ..self },
            Direction::Backward => CameraController { backward: held, ..self },
            Direction::Left => CameraController { left: held, ..self },
            Direction::Right => CameraController { right: held, ..self },
            Direction::Up => CameraController { up: held, ..self },
            Direction::Down => CameraController { down: held, ..self },
        }
    }

    /// The controller after a key event: only movement keys change it.
    pub open spec fn after_key(self, key: Key, state: ElementState) -> CameraController {
        match key {
            Key::Move(direction) => self.with_key(direction, state),
            _ => self,
        }
    }

    pub fn is_pressed(&self, direction: Direction) -> (held: bool)
        ensures
            held == self.pressed(direction),
    {
        match direction {
            Direction::Forward => self.forward,
            Direction::Backward => self.backward,
            Direction::Left => self.left,
            Direction::Right => self.right,
            Direction::Up => self.up,
            Direction::Down => self.down,
        }
    }

    /// Takes a key event. Movement keys are taken in and reported as consumed;
    /// other keys are left to the caller.
    pub fn process_keyboard(&mut self, key: Key, state: ElementState) -> (consumed: bool)
        ensures
            consumed == key is Move,
            *final(self) == old(self).after_key(key, state),
    {
        let held: bool = match state {
            ElementState::Pressed => true,
            ElementState::Released => false,
        };
        match key {
            Key::Move(direction) => {
                match direction {
                    Direction::Forward => {
                        self.forward = held;
                    },
                    Direction::Backward => {
                        self.backward = held;
                    },
                    Direction::Left => {
                        self.left = held;
                    },
                    Direction::Right => {
                        self.right = held;
                    },
                    Direction::Up => {
                        self.up = held;
                    },
                    Direction::Down => {
                        self.down = held;
                    },
                }
                true
            },
            _ => false,
        }
    }
}

/// Whether the camera takes a window event for itself: it does so with the
/// events of movement keys and with no others.
pub open spec fn consumes(event: WindowEvent) -> bool {
    event matches WindowEvent::KeyboardInput { key, .. } && key is Move
}

/// The part of the camera that does not need floating point: its controller.
#[derive(Clone, Copy, Debug, PartialEq, Eq, Structural)]
pub struct Camera {
    pub camera_controller: CameraController,
}

impl Camera {
    /// The camera with no key held.
    pub open spec fn new_spec() -> Camera {
        Camera { camera_controller: CameraController::new() }
    }

    #[verifier::when_used_as_spec(new_spec)]
    pub fn new() -> (camera: Camera)
        ensures
            camera == Self::new_spec(),
    {
        Camera { camera_controller: CameraController::new() }
    }

    /// The camera after a window event.
    pub open spec fn after_event(self, event: WindowEvent) -> Camera {
        match event {
            WindowEvent::KeyboardInput { key, state } => Camera {
                camera_controller: self.camera_controller.after_key(key, state),
            },
            _ => self,
        }
    }

    /// Offers a window event to the camera and says whether the camera consumed it.
    pub fn input_keyboard(&mut self, event: &WindowEvent) -> (consumed: bool)
        ensures
            consumed == consumes(*event),
            *final(self) == old(self).after_event(*event),
    {
        match event {
            WindowEvent::KeyboardInput { key, state } => self.camera_controller.process_keyboard(
                *key,
                *state,
            ),
            _ => false,
        }
    }
}

} // verus!
