//! Input handling: which window events steer the camera.

use vstd::prelude::*;
use crate::camera::{CameraController, ElementState, KeyCode};
use crate::scalar::Scalar;

verus! {

/// A mouse button.
#[derive(Clone, Copy, Debug, PartialEq, Eq, Structural)]
pub enum MouseButton {
    Left,
    Right,
    Middle,
    Other,
}

/// A window event, as far as input handling reads it.
#[derive(Clone, Copy, Debug, PartialEq, Eq, Structural)]
pub enum WindowEvent {
    /// A key with a known place on the keyboard went down or came up.
    KeyboardInput { keycode: KeyCode, state: ElementState },
    /// A mouse button went down or came up.
    MouseInput { button: MouseButton, state: ElementState },
    /// Anything else.
    Other,
}

/// What is to become of the pointer after an event.
#[derive(Clone, Copy, Debug, PartialEq, Eq, Structural)]
pub enum CursorRequest {
    /// Leave the pointer as it is.
    Keep,
    /// Confine the pointer to the window and hide it: the camera is turning.
    Confine,
    /// Set the pointer free and show it again.
    Release,
}

/// The outcome of one event.
#[derive(Clone, Copy, Debug, PartialEq, Eq, Structural)]
pub struct InputOutcome {
    /// Whether the event was used up.
    pub consumed: bool,
    pub cursor: CursorRequest,
}

/// Input state: the camera controller, whether the right mouse button is
/// held (the camera turns with the pointer), and whether the scene has the
/// keyboard focus rather than the interface around it.
#[derive(Clone, Copy, Debug)]
pub struct InputHandler {
    pub camera_controller: CameraController,
    pub right_mouse_pressed: bool,
    pub is_scene_focused: bool,
}

impl InputHandler {
    /// The handler before any input.
    pub open spec fn initial(camera_speed: Scalar) -> InputHandler {
        InputHandler {
            camera_controller: CameraController::initial(camera_speed),
            right_mouse_pressed: false,
            is_scene_focused: false,
        }
    }

    /// The handler after an event.
    ///
    /// A key reaches the camera controller only while the scene has the
    /// focus and the interface did not use the event up. The right mouse
    /// button, pressed over the scene, lets the camera turn with the pointer
    /// and gives the scene the focus; pressed beside the scene it changes
    /// nothing; released, it ends the turning. Any other button, pressed
    /// over the scene, gives the scene the focus; pressed on the interface,
    /// it takes the focus away.
    pub open spec fn after(
        self,
        event: WindowEvent,
        ui_consumed: bool,
        is_scene_hovered: bool,
    ) -> InputHandler {
        match event {
            WindowEvent::KeyboardInput { keycode, state } => {
                if self.is_scene_focused && !ui_consumed {
                    InputHandler {
                        camera_controller: self.camera_controller.with_key(
                            keycode,
                            state == ElementState::Pressed,
                        ),
                        ..self
                    }
                } else {
                    self
                }
            },
            WindowEvent::MouseInput { button: MouseButton::Right, state } => {
                if state == ElementState::Pressed {
                    if is_scene_hovered {
                        InputHandler { right_mouse_pressed: true, is_scene_focused: true, ..self }
                    } else {
                        self
                    }
                } else {
                    InputHandler { right_mouse_pressed: false, ..self }
                }
            },
            WindowEvent::MouseInput { button: _, state: ElementState::Pressed } => {
                InputHandler {
                    is_scene_focused: if is_scene_hovered {
                        true
                    } else if ui_consumed {
                        false
                    } else {
                        self.is_scene_focused
                    },
                    ..self
                }
            },
            _ => self,
        }
    }

    /// What an event leads to.
    ///
    /// A key is used up if it reached the camera controller and the
    /// controller reacts to it. Pressing the right button over the scene is
    /// used up and confines the pointer; pressing it elsewhere does neither.
    /// Releasing the right button is used up and frees the pointer. Nothing
    /// else is used up.
    pub open spec fn outcome(
        self,
        event: WindowEvent,
        ui_consumed: bool,
        is_scene_hovered: bool,
    ) -> InputOutcome {
        match event {
            WindowEvent::KeyboardInput { keycode, state } => InputOutcome {
                consumed: self.is_scene_focused && !ui_consumed && keycode.is_bound(),
                cursor: CursorRequest::Keep,
            },
            WindowEvent::MouseInput { button: MouseButton::Right, state } => {
                if state == ElementState::Pressed {
                    if is_scene_hovered {
                        InputOutcome { consumed: true, cursor: CursorRequest::Confine }
                    } else {
                        InputOutcome { consumed: false, cursor: CursorRequest::Keep }
                    }
                } else {
                    InputOutcome { consumed: true, cursor: CursorRequest::Release }
                }
            },
            _ => InputOutcome { consumed: false, cursor: CursorRequest::Keep },
        }
    }

    /// The handler after the pointer moved: the view turns only while the
    /// right button is held.
    pub open spec fn after_motion(self, yaw: Scalar, pitch: Scalar) -> InputHandler {
        if self.right_mouse_pressed {
            InputHandler { camera_controller: self.camera_controller.with_look(yaw, pitch), ..self }
        } else {
            self
        }
    }

    /// A handler whose camera moves by `camera_speed` per update.
    pub fn new(camera_speed: Scalar) -> (h: InputHandler)
        ensures
            h == Self::initial(camera_speed),
    {
        InputHandler {
            camera_controller: CameraController::new(camera_speed),
            right_mouse_pressed: false,
            is_scene_focused: false,
        }
    }

    /// Takes one window event. `ui_consumed` says whether the interface
    /// used the event up, `is_scene_hovered` whether the pointer is over the
    /// scene. Returns whether the event was used up here, and what is to
    /// become of the pointer.
    pub fn process_input(
        &mut self,
        event: &WindowEvent,
        ui_consumed: bool,
        is_scene_hovered: bool,
    ) -> (outcome: InputOutcome)
        ensures
            *final(self) == old(self).after(*event, ui_consumed, is_scene_hovered),
            outcome == old(self).outcome(*event, ui_consumed, is_scene_hovered),
    {
        match event {
            WindowEvent::KeyboardInput { keycode, state } => {
                let consumed = if self.is_scene_focused && !ui_consumed {
                    self.camera_controller.process_keyboard(*keycode, *state)
                } else {
                    false
                };
                InputOutcome { consumed, cursor: CursorRequest::Keep }
            },
            WindowEvent::MouseInput { button: MouseButton::Right, state } => {
                if *state == ElementState::Pressed {
                    if is_scene_hovered {
                        self.right_mouse_pressed = true;
                        self.is_scene_focused = true;
                        InputOutcome { consumed: true, cursor: CursorRequest::Confine }
                    } else {
                        InputOutcome { consumed: false, cursor: CursorRequest::Keep }
                    }
                } else {
                    self.right_mouse_pressed = false;
                    InputOutcome { consumed: true, cursor: CursorRequest::Release }
                }
            },
            WindowEvent::MouseInput { button: _, state: ElementState::Pressed } => {
                if is_scene_hovered {
                    self.is_scene_focused = true;
                } else if ui_consumed {
                    self.is_scene_focused = false;
                }
                InputOutcome { consumed: false, cursor: CursorRequest::Keep }
            },
            _ => InputOutcome { consumed: false, cursor: CursorRequest::Keep },
        }
    }

    /// Takes a pointer motion. `yaw` and `pitch` are the heading and
    /// elevation that the motion leads to, as `CameraController::process_mouse`
    /// takes them. The view turns only while the right button is held.
    pub fn handle_mouse_motion(&mut self, yaw: Scalar, pitch: Scalar)
        ensures
            *final(self) == old(self).after_motion(yaw, pitch),
    {
        if self.right_mouse_pressed {
            self.camera_controller.process_mouse(yaw, pitch);
        }
    }
}

/// The camera turns only for a right button that went down over the scene:
/// a press beside the scene leaves the handler as it was, is not used up and
/// asks nothing of the pointer, so that a motion that follows turns nothing
/// that would not have turned before.
pub proof fn lemma_look_begins_over_scene(h: InputHandler, ui_consumed: bool, yaw: Scalar, pitch: Scalar)
    ensures
        ({
            let press = WindowEvent::MouseInput {
                button: MouseButton::Right,
                state: ElementState::Pressed,
            };
            &&& h.after(press, ui_consumed, false) == h
            &&& h.outcome(press, ui_consumed, false) == (InputOutcome {
                consumed: false,
                cursor: CursorRequest::Keep,
            })
            &&& h.after(press, ui_consumed, false).after_motion(yaw, pitch) == h.after_motion(
                yaw,
                pitch,
            )
            &&& h.after(press, ui_consumed, true).right_mouse_pressed
            &&& h.after(press, ui_consumed, true).is_scene_focused
        }),
{
}

/// Keys pressed while the interface has the focus never move the camera.
pub proof fn lemma_keys_need_focus(
    h: InputHandler,
    keycode: KeyCode,
    state: ElementState,
    ui_consumed: bool,
    is_scene_hovered: bool,
)
    requires
        !h.is_scene_focused || ui_consumed,
    ensures
        h.after(WindowEvent::KeyboardInput { keycode, state }, ui_consumed, is_scene_hovered)
            == h,
        !h.outcome(
            WindowEvent::KeyboardInput { keycode, state },
            ui_consumed,
            is_scene_hovered,
        ).consumed,
{
}

} // verus!
