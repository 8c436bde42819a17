//! How a running level answers the window's and the device's input.
use vstd::prelude::*;

verus! {

/// An input event as the level sees it.
#[derive(Debug, Clone, Copy, PartialEq, Eq, Structural)]
pub enum InputEvent {
    /// A keyboard event that names a key.
    Key,
    /// A turn of the mouse wheel.
    MouseWheel,
    /// A press or release of a mouse button.
    MouseButton { left: bool, pressed: bool },
    /// Any other window event.
    OtherWindowEvent,
    /// A raw movement of the mouse.
    MouseMotion,
    /// Any other device event.
    OtherDeviceEvent,
}

/// What the level does with an event, and so whether it handled it.
#[derive(Debug, Clone, Copy, PartialEq, Eq, Structural)]
pub enum InputResponse {
    /// The camera controller takes the key; whether the event was handled
    /// is its answer.
    Keyboard,
    /// The field of view follows the wheel; handled.
    Zoom,
    /// The camera controller turns the view by the motion; handled.
    Rotate,
    /// Handled with nothing further to do.
    Consumed,
    /// Not handled.
    Ignored,
}

impl InputResponse {
    /// Whether the level reports the event as handled, where the level
    /// itself decides that.
    pub open spec fn handled_spec(self) -> Option<bool> {
        match self {
            InputResponse::Keyboard => None,
            InputResponse::Ignored => Some(false),
            _ => Some(true),
        }
    }

    /// Whether the level reports the event as handled: `None` where the
    /// camera controller's answer decides it.
    pub fn handled(&self) -> (r: Option<bool>)
        ensures
            r == self.handled_spec(),
    {
        match self {
            InputResponse::Keyboard => None,
            InputResponse::Ignored => Some(false),
            _ => Some(true),
        }
    }
}

/// The input state of a running level: whether the left mouse button is down.
#[derive(Debug, Clone, Copy, PartialEq, Eq, Structural)]
pub struct LevelInput {
    pub mouse_pressed: bool,
}

/// The response of a level, with the left button down or not, to an event.
pub open spec fn response_to(mouse_pressed: bool, event: InputEvent) -> InputResponse {
    match event {
        InputEvent::Key => InputResponse::Keyboard,
        InputEvent::MouseWheel => InputResponse::Zoom,
        InputEvent::MouseButton { left, pressed } => if left {
            InputResponse::Consumed
        } else {
            InputResponse::Ignored
        },
        InputEvent::MouseMotion => if mouse_pressed {
            InputResponse::Rotate
        } else {
            InputResponse::Consumed
        },
        InputEvent::OtherWindowEvent | InputEvent::OtherDeviceEvent => InputResponse::Ignored,
    }
}

/// Whether the left button is down after an event: a left-button event
/// sets it, every other event keeps it.
pub open spec fn pressed_after(mouse_pressed: bool, event: InputEvent) -> bool {
    match event {
        InputEvent::MouseButton { left, pressed } => if left {
            pressed
        } else {
            mouse_pressed
        },
        _ => mouse_pressed,
    }
}

impl LevelInput {
    /// A level starts with the button up.
    pub fn new() -> (r: LevelInput)
        ensures
            !r.mouse_pressed,
    {
        LevelInput { mouse_pressed: false }
    }

    /// Answers one event and records the left button's state.
    pub fn input(&mut self, event: InputEvent) -> (r: InputResponse)
        ensures
            r == response_to(old(self).mouse_pressed, event),
            final(self).mouse_pressed == pressed_after(old(self).mouse_pressed, event),
    {
        match event {
            InputEvent::Key => InputResponse::Keyboard,
            InputEvent::MouseWheel => InputResponse::Zoom,
            InputEvent::MouseButton { left, pressed } => {
                if left {
                    self.mouse_pressed = pressed;
                    InputResponse::Consumed
                } else {
                    InputResponse::Ignored
                }
            },
            InputEvent::OtherWindowEvent => InputResponse::Ignored,
            InputEvent::MouseMotion => {
                if self.mouse_pressed {
                    InputResponse::Rotate
                } else {
                    InputResponse::Consumed
                }
            },
            InputEvent::OtherDeviceEvent => InputResponse::Ignored,
        }
    }
}

/// A mouse motion turns the view exactly when the last left-button event
/// before it was a press; events of other kinds in between change nothing.
pub proof fn lemma_motion_rotates_after_press(
    mouse_pressed: bool,
    pressed: bool,
    between: Seq<InputEvent>,
)
    requires
        forall|i: int| 0 <= i < between.len() ==> !(#[trigger] between[i] is MouseButton),
    ensures
        response_to(
            pressed_after_all(
                pressed_after(mouse_pressed, InputEvent::MouseButton { left: true, pressed }),
                between,
            ),
            InputEvent::MouseMotion,
        ) == (if pressed {
            InputResponse::Rotate
        } else {
            InputResponse::Consumed
        }),
{
    lemma_other_events_keep_pressed(pressed, between);
}

/// Whether the left button is down after a run of events.
pub open spec fn pressed_after_all(mouse_pressed: bool, events: Seq<InputEvent>) -> bool
    decreases events.len(),
{
    if events.len() == 0 {
        mouse_pressed
    } else {
        pressed_after_all(pressed_after(mouse_pressed, events[0]), events.drop_first())
    }
}

/// Events that are not mouse-button events never move the button state.
pub proof fn lemma_other_events_keep_pressed(mouse_pressed: bool, events: Seq<InputEvent>)
    requires
        forall|i: int| 0 <= i < events.len() ==> !(#[trigger] events[i] is MouseButton),
    ensures
        pressed_after_all(mouse_pressed, events) == mouse_pressed,
    decreases events.len(),
{
    if events.len() > 0 {
        assert(!(events[0] is MouseButton));
        let rest = events.drop_first();
        assert forall|i: int| 0 <= i < rest.len() implies !(#[trigger] rest[i] is MouseButton) by {
            assert(rest[i] == events[i + 1]);
        }
        lemma_other_events_keep_pressed(mouse_pressed, rest);
    }
}

/// The mouse wheel zooms the view whether or not the left button is down,
/// and leaves the button state as it is.
pub proof fn lemma_wheel_always_zooms(mouse_pressed: bool)
    ensures
        response_to(mouse_pressed, InputEvent::MouseWheel) == InputResponse::Zoom,
        pressed_after(mouse_pressed, InputEvent::MouseWheel) == mouse_pressed,
        InputResponse::Zoom.handled_spec() == Some(true),
{
}

/// A press or release of any button but the left one is not handled and
/// leaves the left-button state as it is.
pub proof fn lemma_other_buttons_change_nothing(mouse_pressed: bool, pressed: bool)
    ensures
        pressed_after(mouse_pressed, InputEvent::MouseButton { left: false, pressed })
            == mouse_pressed,
        response_to(mouse_pressed, InputEvent::MouseButton { left: false, pressed })
            == InputResponse::Ignored,
        InputResponse::Ignored.handled_spec() == Some(false),
{
}

/// A left-button event is handled and makes the button state what the
/// event says, whatever it was before.
pub proof fn lemma_left_button_sets_state(mouse_pressed: bool, pressed: bool)
    ensures
        pressed_after(mouse_pressed, InputEvent::MouseButton { left: true, pressed }) == pressed,
        response_to(mouse_pressed, InputEvent::MouseButton { left: true, pressed })
            == InputResponse::Consumed,
{
}

/// A mouse motion is always handled, turns the view exactly while the left
/// button is down, and never moves the button state.
pub proof fn lemma_motion_turns_only_while_pressed(mouse_pressed: bool)
    ensures
        (response_to(mouse_pressed, InputEvent::MouseMotion) == InputResponse::Rotate)
            == mouse_pressed,
        response_to(mouse_pressed, InputEvent::MouseMotion).handled_spec() == Some(true),
        pressed_after(mouse_pressed, InputEvent::MouseMotion) == mouse_pressed,
{
}

/// Keys always go to the camera controller, which decides whether they are
/// handled, and they leave the button state as it is.
pub proof fn lemma_keys_go_to_controller(mouse_pressed: bool)
    ensures
        response_to(mouse_pressed, InputEvent::Key) == InputResponse::Keyboard,
        InputResponse::Keyboard.handled_spec() is None,
        pressed_after(mouse_pressed, InputEvent::Key) == mouse_pressed,
{
}

} // verus!
