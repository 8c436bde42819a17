use sdf_game::level::{InputEvent, InputResponse, LevelInput};

#[test]
fn level_starts_with_button_up() {
    assert!(!LevelInput::new().mouse_pressed);
}

#[test]
fn keys_go_to_the_controller() {
    let mut l = LevelInput::new();
    assert_eq!(l.input(InputEvent::Key), InputResponse::Keyboard);
    assert!(!l.mouse_pressed);
}

#[test]
fn wheel_zooms() {
    let mut l = LevelInput { mouse_pressed: true };
    assert_eq!(l.input(InputEvent::MouseWheel), InputResponse::Zoom);
    assert!(l.mouse_pressed);
}

#[test]
fn left_button_sets_pressed() {
    let mut l = LevelInput::new();
    assert_eq!(
        l.input(InputEvent::MouseButton { left: true, pressed: true }),
        InputResponse::Consumed
    );
    assert!(l.mouse_pressed);
    assert_eq!(
        l.input(InputEvent::MouseButton { left: true, pressed: false }),
        InputResponse::Consumed
    );
    assert!(!l.mouse_pressed);
}

#[test]
fn other_buttons_are_ignored() {
    let mut l = LevelInput { mouse_pressed: true };
    assert_eq!(
        l.input(InputEvent::MouseButton { left: false, pressed: false }),
        InputResponse::Ignored
    );
    assert!(l.mouse_pressed);
}

#[test]
fn motion_rotates_only_while_pressed() {
    let mut l = LevelInput::new();
    assert_eq!(l.input(InputEvent::MouseMotion), InputResponse::Consumed);
    l.input(InputEvent::MouseButton { left: true, pressed: true });
    assert_eq!(l.input(InputEvent::Key), InputResponse::Keyboard);
    assert_eq!(l.input(InputEvent::MouseMotion), InputResponse::Rotate);
    l.input(InputEvent::MouseButton { left: true, pressed: false });
    assert_eq!(l.input(InputEvent::MouseMotion), InputResponse::Consumed);
}

#[test]
fn other_events_are_ignored() {
    let mut l = LevelInput::new();
    assert_eq!(l.input(InputEvent::OtherWindowEvent), InputResponse::Ignored);
    assert_eq!(l.input(InputEvent::OtherDeviceEvent), InputResponse::Ignored);
}

#[test]
fn handled_follows_the_response() {
    assert_eq!(InputResponse::Keyboard.handled(), None);
    assert_eq!(InputResponse::Zoom.handled(), Some(true));
    assert_eq!(InputResponse::Rotate.handled(), Some(true));
    assert_eq!(InputResponse::Consumed.handled(), Some(true));
    assert_eq!(InputResponse::Ignored.handled(), Some(false));
}
