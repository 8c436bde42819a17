use sdf_game::controller::{InputHandler, UiEvent};

#[test]
fn key_press_is_reported() {
    let mut h = InputHandler::new();
    let line = h.on_event(&UiEvent::Key { name: "A".to_string(), pressed: true });
    assert_eq!(line, Some("A = true".to_string()));
}

#[test]
fn key_release_is_reported() {
    let mut h = InputHandler::new();
    let line = h.on_event(&UiEvent::Key { name: "Escape".to_string(), pressed: false });
    assert_eq!(line, Some("Escape = false".to_string()));
}

#[test]
fn other_events_are_not_reported() {
    let mut h = InputHandler::new();
    assert_eq!(h.on_event(&UiEvent::Other), None);
}
