use graphics::camera::{
    device_transition, window_transition, CameraAction, DeviceInput, InputResponse, MouseButton,
    PointerState, WindowInput,
};

fn response(consumed: bool, needs_upload: bool, action: CameraAction) -> InputResponse {
    InputResponse { consumed, needs_upload, action }
}

#[test]
fn press_drag_then_scroll() {
    let s = PointerState::new();
    assert_eq!(s, PointerState::Idle);
    let (s, r) = window_transition(s, WindowInput::MouseInput { button: MouseButton::Left, pressed: true });
    assert_eq!(s, PointerState::Dragging);
    assert_eq!(r, response(true, false, CameraAction::Nothing));
    let (s, r) = device_transition(s, DeviceInput::MouseMotion);
    assert_eq!(s, PointerState::Dragging);
    assert_eq!(r, response(true, true, CameraAction::Rotate));
    let (s, r) = window_transition(s, WindowInput::MouseWheel);
    assert_eq!(s, PointerState::Dragging);
    assert_eq!(r, response(true, true, CameraAction::Zoom));
}

#[test]
fn motion_while_idle_is_ignored() {
    let (s, r) = device_transition(PointerState::Idle, DeviceInput::MouseMotion);
    assert_eq!(s, PointerState::Idle);
    assert_eq!(r, response(false, false, CameraAction::Nothing));
}

#[test]
fn release_returns_to_idle() {
    let (s, r) = window_transition(
        PointerState::Dragging,
        WindowInput::MouseInput { button: MouseButton::Left, pressed: false },
    );
    assert_eq!(s, PointerState::Idle);
    assert_eq!(r, response(true, false, CameraAction::Nothing));
    let (s, r) = device_transition(s, DeviceInput::MouseMotion);
    assert_eq!(s, PointerState::Idle);
    assert!(!r.needs_upload);
}

#[test]
fn scroll_zooms_while_idle() {
    let (s, r) = window_transition(PointerState::Idle, WindowInput::MouseWheel);
    assert_eq!(s, PointerState::Idle);
    assert_eq!(r, response(true, true, CameraAction::Zoom));
}

#[test]
fn other_buttons_and_events_pass_through() {
    let (s, r) = window_transition(
        PointerState::Idle,
        WindowInput::MouseInput { button: MouseButton::Right, pressed: true },
    );
    assert_eq!(s, PointerState::Idle);
    assert_eq!(r, response(false, false, CameraAction::Nothing));
    let (s, r) = window_transition(PointerState::Dragging, WindowInput::Other);
    assert_eq!(s, PointerState::Dragging);
    assert_eq!(r, response(false, false, CameraAction::Nothing));
    let (s, r) = device_transition(PointerState::Dragging, DeviceInput::Other);
    assert_eq!(s, PointerState::Dragging);
    assert_eq!(r, response(false, false, CameraAction::Nothing));
}
