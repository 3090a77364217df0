//! The discrete half of the orbit camera controller.
//!
//! The controller is idle or dragging. Pointer-button events move it between
//! the two; scroll events zoom in either state; pointer motion rotates only
//! while dragging. Each transition reports whether the event was consumed,
//! whether the camera uniform must be uploaded again, and which camera update
//! the caller has to apply.
use vstd::prelude::*;

verus! {

/// A pointer button, as far as the controller tells them apart.
#[derive(Clone, Copy, Debug, PartialEq, Eq, Structural)]
pub enum MouseButton {
    Left,
    Right,
    Middle,
    Other,
}

/// A window-level input event, reduced to what the controller reads.
#[derive(Clone, Copy, Debug, PartialEq, Eq, Structural)]
pub enum WindowInput {
    MouseInput { button: MouseButton, pressed: bool },
    MouseWheel,
    Other,
}

/// A device-level input event, reduced to what the controller reads.
#[derive(Clone, Copy, Debug, PartialEq, Eq, Structural)]
pub enum DeviceInput {
    MouseMotion,
    Other,
}

/// Whether the primary pointer button is held.
#[derive(Clone, Copy, Debug, PartialEq, Eq, Structural)]
pub enum PointerState {
    Idle,
    Dragging,
}

/// The camera update an event calls for.
#[derive(Clone, Copy, Debug, PartialEq, Eq, Structural)]
pub enum CameraAction {
    Nothing,
    /// Change the orbit distance by the scroll amount, then rebuild.
    Zoom,
    /// Compose the motion's pitch and yaw into the orientation, then rebuild.
    Rotate,
}

/// What the controller reports for one event.
#[derive(Clone, Copy, Debug, PartialEq, Eq, Structural)]
pub struct InputResponse {
    pub consumed: bool,
    pub needs_upload: bool,
    pub action: CameraAction,
}

/// The response to an event the controller does not handle.
pub open spec fn ignored() -> InputResponse {
    InputResponse { consumed: false, needs_upload: false, action: CameraAction::Nothing }
}

impl PointerState {
    pub fn new() -> (r: PointerState)
        ensures
            r == PointerState::Idle,
    {
        PointerState::Idle
    }

    pub open spec fn is_dragging(self) -> bool {
        self is Dragging
    }
}

/// The controller's transition on a window event. A primary-button press or
/// release sets the state and is consumed without a rebuild; a scroll is a
/// zoom in either state; anything else is left to the caller. An upload is
/// asked for exactly when the camera is to change.
pub fn window_transition(state: PointerState, event: WindowInput) -> (r: (
    PointerState,
    InputResponse,
))
    ensures
        match event {
            WindowInput::MouseInput { button: MouseButton::Left, pressed } => {
                &&& r.0 == if pressed {
                    PointerState::Dragging
                } else {
                    PointerState::Idle
                }
                &&& r.1 == InputResponse {
                    consumed: true,
                    needs_upload: false,
                    action: CameraAction::Nothing,
                }
            },
            WindowInput::MouseWheel => {
                &&& r.0 == state
                &&& r.1 == InputResponse {
                    consumed: true,
                    needs_upload: true,
                    action: CameraAction::Zoom,
                }
            },
            _ => r.0 == state && r.1 == ignored(),
        },
        r.1.needs_upload <==> r.1.action != CameraAction::Nothing,
        r.1.needs_upload ==> r.1.consumed,
{
    match event {
        WindowInput::MouseInput { button: MouseButton::Left, pressed } => {
            let next = if pressed {
                PointerState::Dragging
            } else {
                PointerState::Idle
            };
            (next, InputResponse { consumed: true, needs_upload: false, action: CameraAction::Nothing })
        },
        WindowInput::MouseWheel => {
            (state, InputResponse { consumed: true, needs_upload: true, action: CameraAction::Zoom })
        },
        _ => (state, InputResponse { consumed: false, needs_upload: false, action: CameraAction::Nothing }),
    }
}

/// The controller's transition on a device event: pointer motion rotates
/// the camera while dragging and is ignored otherwise. The state is kept.
pub fn device_transition(state: PointerState, event: DeviceInput) -> (r: (
    PointerState,
    InputResponse,
))
    ensures
        r.0 == state,
        r.1 == if event is MouseMotion && state.is_dragging() {
            InputResponse { consumed: true, needs_upload: true, action: CameraAction::Rotate }
        } else {
            ignored()
        },
        r.1.needs_upload <==> r.1.action != CameraAction::Nothing,
        r.1.needs_upload ==> r.1.consumed,
{
    match (event, state) {
        (DeviceInput::MouseMotion, PointerState::Dragging) => {
            (state, InputResponse { consumed: true, needs_upload: true, action: CameraAction::Rotate })
        },
        _ => (state, InputResponse { consumed: false, needs_upload: false, action: CameraAction::Nothing }),
    }
}

} // verus!
