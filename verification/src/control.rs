//! Input dispatch: the mapping from platform input events to what the
//! scene and the camera must do. The shell translates its window library's
//! events into [`InputEvent`] values and performs the returned actions;
//! which action an event produces, and how the control state gates it, is
//! decided and proved here.

use vstd::prelude::*;

use crate::camera::CameraMovement;
use crate::scalar::Scalar;

verus! {

/// The keys the engine reacts to.
#[derive(Clone, Copy, PartialEq, Eq, Structural, Debug)]
pub enum Key {
    W,
    A,
    S,
    D,
    F,
    L,
    P,
    Escape,
    Other,
}

/// A platform input event, reduced to plain values.
#[derive(Clone, Copy, PartialEq, Eq, Structural, Debug)]
pub enum InputEvent {
    /// The right mouse button changed state.
    MouseRightButton { pressed: bool },
    /// The cursor moved to the given position.
    CursorMoved { x: Scalar, y: Scalar },
    /// A key went down.
    KeyPressed { key: Key },
    /// The window was asked to close.
    CloseRequested,
    /// The window was resized.
    Resized { width: u32, height: u32 },
}

/// What the shell must do in response to an event.
#[derive(Clone, Copy, PartialEq, Eq, Structural, Debug)]
pub enum ControlAction {
    /// Feed the cursor position to the camera's spin.
    Spin { x: Scalar, y: Scalar },
    /// Move the camera.
    Move { movement: CameraMovement },
    /// Rasterise filled polygons.
    SetFillMode,
    /// Rasterise polygon outlines.
    SetLineMode,
    /// Rasterise polygon vertices as points.
    SetPointMode,
    /// Resize the drawing surface.
    Resize { width: u32, height: u32 },
}

/// The loop-control state: whether the engine keeps running, and whether
/// the right mouse button is held, which gates camera rotation.
#[derive(Clone, Copy, PartialEq, Eq, Structural, Debug)]
pub struct Control {
    pub is_running: bool,
    pub is_mouse_right_pressed: bool,
}

/// The control state after an event: the mouse gate follows the right
/// button, and an escape key or a close request clears the running flag.
pub open spec fn spec_control_after(c: Control, e: InputEvent) -> Control {
    match e {
        InputEvent::MouseRightButton { pressed } => Control {
            is_mouse_right_pressed: pressed,
            ..c
        },
        InputEvent::KeyPressed { key } => if key == Key::Escape {
            Control { is_running: false, ..c }
        } else {
            c
        },
        InputEvent::CloseRequested => Control { is_running: false, ..c },
        _ => c,
    }
}

/// The action an event produces: cursor movement spins the camera only
/// while the right button is held; the movement keys move the camera; the
/// mode keys switch rasterisation; a resize is passed through; everything
/// else produces nothing.
pub open spec fn spec_control_action(c: Control, e: InputEvent) -> Option<ControlAction> {
    match e {
        InputEvent::CursorMoved { x, y } => if c.is_mouse_right_pressed {
            Option::Some(ControlAction::Spin { x, y })
        } else {
            Option::None
        },
        InputEvent::KeyPressed { key } => match key {
            Key::W => Option::Some(ControlAction::Move { movement: CameraMovement::FORWARD }),
            Key::S => Option::Some(ControlAction::Move { movement: CameraMovement::BACKWARD }),
            Key::A => Option::Some(ControlAction::Move { movement: CameraMovement::LEFT }),
            Key::D => Option::Some(ControlAction::Move { movement: CameraMovement::RIGHT }),
            Key::F => Option::Some(ControlAction::SetFillMode),
            Key::P => Option::Some(ControlAction::SetLineMode),
            Key::L => Option::Some(ControlAction::SetPointMode),
            Key::Escape => Option::None,
            Key::Other => Option::None,
        },
        InputEvent::Resized { width, height } => Option::Some(
            ControlAction::Resize { width, height },
        ),
        _ => Option::None,
    }
}

impl Control {
    /// A fresh control: running, with the right button up.
    pub fn new() -> (r: Control)
        ensures
            r == (Control { is_running: true, is_mouse_right_pressed: false }),
    {
        Control { is_running: true, is_mouse_right_pressed: false }
    }

    /// Clears the running flag; the loop ends after the current frame.
    pub fn stop(&mut self)
        ensures
            *final(self) == (Control { is_running: false, ..*old(self) }),
    {
        self.is_running = false;
    }

    /// Dispatches one event: updates the control state and returns the
    /// action the shell must perform, if any.
    pub fn process_inputs(&mut self, e: &InputEvent) -> (r: Option<ControlAction>)
        ensures
            *final(self) == spec_control_after(*old(self), *e),
            r == spec_control_action(*old(self), *e),
    {
        match e {
            InputEvent::MouseRightButton { pressed } => {
                self.is_mouse_right_pressed = *pressed;
                Option::None
            },
            InputEvent::CursorMoved { x, y } => {
                if self.is_mouse_right_pressed {
                    Option::Some(ControlAction::Spin { x: *x, y: *y })
                } else {
                    Option::None
                }
            },
            InputEvent::KeyPressed { key } => match key {
                Key::W => Option::Some(
                    ControlAction::Move { movement: CameraMovement::FORWARD },
                ),
                Key::S => Option::Some(
                    ControlAction::Move { movement: CameraMovement::BACKWARD },
                ),
                Key::A => Option::Some(ControlAction::Move { movement: CameraMovement::LEFT }),
                Key::D => Option::Some(ControlAction::Move { movement: CameraMovement::RIGHT }),
                Key::F => Option::Some(ControlAction::SetFillMode),
                Key::P => Option::Some(ControlAction::SetLineMode),
                Key::L => Option::Some(ControlAction::SetPointMode),
                Key::Escape => {
                    self.stop();
                    Option::None
                },
                Key::Other => Option::None,
            },
            InputEvent::CloseRequested => {
                self.stop();
                Option::None
            },
            InputEvent::Resized { width, height } => Option::Some(
                ControlAction::Resize { width: *width, height: *height },
            ),
        }
    }
}

} // verus!
