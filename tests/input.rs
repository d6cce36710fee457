use application_base::input::{InputEvent, InputManager, Key, MouseButton, NativeMouseButton};

fn key(code: u32, pressed: bool) -> InputEvent {
    InputEvent::KeyboardInput { code: Some(code), pressed }
}

const ESCAPE: u32 = 36;
const A: u32 = 10;

#[test]
fn native_codes_map_to_keys() {
    assert_eq!(Key::from_code(0), Key::One);
    assert_eq!(Key::from_code(9), Key::Zero);
    assert_eq!(Key::from_code(10), Key::A);
    assert_eq!(Key::from_code(35), Key::Z);
    assert_eq!(Key::from_code(36), Key::Escape);
    assert_eq!(Key::from_code(48), Key::F12);
    assert_eq!(Key::from_code(74), Key::Backspace);
    assert_eq!(Key::from_code(75), Key::Enter);
    assert_eq!(Key::from_code(76), Key::Space);
    assert_eq!(Key::from_code(117), Key::LeftCtrl);
    assert_eq!(Key::from_code(140), Key::RightMeta);
    assert_eq!(Key::from_code(146), Key::Tab);
}

#[test]
fn unrecognised_codes_map_to_sentinel() {
    assert_eq!(Key::from_code(49), Key::NotImplemented);
    assert_eq!(Key::from_code(77), Key::NotImplemented);
    assert_eq!(Key::from_code(u32::MAX), Key::NotImplemented);
}

#[test]
fn native_mouse_buttons_map_to_buttons() {
    assert_eq!(MouseButton::from(NativeMouseButton::Left), MouseButton::Left);
    assert_eq!(MouseButton::from(NativeMouseButton::Right), MouseButton::Right);
    assert_eq!(MouseButton::from(NativeMouseButton::Middle), MouseButton::Middle);
    assert_eq!(MouseButton::from(NativeMouseButton::Other(4)), MouseButton::NotImplemented);
}

#[test]
fn new_tracker_is_empty() {
    let m = InputManager::new();
    assert!(m.pressed_keys().is_empty());
    assert!(m.just_pressed_keys().is_empty());
    assert!(m.pressed_mouse_buttons().is_empty());
    assert!(m.just_pressed_mouse_buttons().is_empty());
    assert_eq!(m.mouse_position(), (0, 0));
}

#[test]
fn key_down_is_held_and_just_pressed() {
    let mut m = InputManager::new();
    m.update(key(ESCAPE, true));
    assert!(m.key_pressed(Key::Escape));
    assert!(m.key_just_pressed(Key::Escape));
    assert!(!m.key_pressed(Key::A));
    assert_eq!(m.pressed_keys(), &vec![Key::Escape]);
}

#[test]
fn press_and_release_within_frame_is_just_pressed_not_held() {
    let mut m = InputManager::new();
    m.update(key(A, true));
    m.update(key(A, false));
    assert!(!m.key_pressed(Key::A));
    assert!(m.key_just_pressed(Key::A));
}

#[test]
fn only_ups_in_a_frame_are_not_just_pressed() {
    let mut m = InputManager::new();
    m.update(key(A, true));
    m.clear();
    m.update(key(A, false));
    m.update(key(A, false));
    assert!(!m.key_pressed(Key::A));
    assert!(!m.key_just_pressed(Key::A));
}

#[test]
fn repeated_downs_are_held_once_and_one_up_releases() {
    let mut m = InputManager::new();
    m.update(key(A, true));
    m.update(key(A, true));
    assert_eq!(m.pressed_keys().len(), 1);
    assert_eq!(m.just_pressed_keys().len(), 1);
    m.update(key(A, false));
    assert!(!m.key_pressed(Key::A));
    m.update(key(A, true));
    assert!(m.key_pressed(Key::A));
}

#[test]
fn clear_empties_edges_and_keeps_held() {
    let mut m = InputManager::new();
    m.update(key(A, true));
    m.update(key(ESCAPE, true));
    m.update(key(ESCAPE, false));
    m.update(InputEvent::MouseInput { button: NativeMouseButton::Left, pressed: true });
    m.clear();
    assert!(m.just_pressed_keys().is_empty());
    assert!(m.just_pressed_mouse_buttons().is_empty());
    assert!(!m.key_just_pressed(Key::A));
    assert!(m.key_pressed(Key::A));
    assert!(!m.key_pressed(Key::Escape));
    assert!(m.mouse_button_pressed(MouseButton::Left));
}

#[test]
fn unmapped_codes_alias_to_one_sentinel() {
    let mut m = InputManager::new();
    m.update(key(77, true));
    m.update(key(100, true));
    assert!(m.key_pressed(Key::NotImplemented));
    assert_eq!(m.pressed_keys().len(), 1);
    m.update(key(77, false));
    assert!(!m.key_pressed(Key::NotImplemented));
    assert!(m.key_just_pressed(Key::NotImplemented));
}

#[test]
fn keys_without_code_are_ignored() {
    let mut m = InputManager::new();
    m.update(InputEvent::KeyboardInput { code: None, pressed: true });
    assert!(m.pressed_keys().is_empty());
    assert!(m.just_pressed_keys().is_empty());
}

#[test]
fn mouse_buttons_follow_held_and_just_pressed() {
    let mut m = InputManager::new();
    m.update(InputEvent::MouseInput { button: NativeMouseButton::Right, pressed: true });
    assert!(m.mouse_button_pressed(MouseButton::Right));
    assert!(m.mouse_button_just_pressed(MouseButton::Right));
    assert!(!m.key_pressed(Key::NotImplemented));
    m.update(InputEvent::MouseInput { button: NativeMouseButton::Right, pressed: false });
    assert!(!m.mouse_button_pressed(MouseButton::Right));
    assert!(m.mouse_button_just_pressed(MouseButton::Right));
    m.update(InputEvent::MouseInput { button: NativeMouseButton::Other(8), pressed: true });
    assert_eq!(m.pressed_mouse_buttons(), &vec![MouseButton::NotImplemented]);
}

#[test]
fn cursor_motion_keeps_latest_position() {
    let mut m = InputManager::new();
    m.update(InputEvent::CursorMoved { x_bits: 1.5f32.to_bits(), y_bits: 2.0f32.to_bits() });
    m.update(InputEvent::CursorMoved { x_bits: 10.0f32.to_bits(), y_bits: 20.25f32.to_bits() });
    let (x, y) = m.mouse_position();
    assert_eq!(f32::from_bits(x), 10.0);
    assert_eq!(f32::from_bits(y), 20.25);
}
