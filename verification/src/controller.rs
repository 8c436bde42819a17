//! The user-interface input handler, which reports key presses.
use vstd::prelude::*;

verus! {

/// A user-interface event, with a key named as its debug form shows it.
pub enum UiEvent {
    Key { name: String, pressed: bool },
    Other,
}

/// The text by which a `bool` shows itself.
pub open spec fn bool_text(b: bool) -> Seq<char> {
    if b {
        seq!['t', 'r', 'u', 'e']
    } else {
        seq!['f', 'a', 'l', 's', 'e']
    }
}

/// The line reported for a key event: the key, ` = `, and whether it was
/// pressed.
pub open spec fn key_line(name: Seq<char>, pressed: bool) -> Seq<char> {
    name + seq![' ', '=', ' '] + bool_text(pressed)
}

/// Reports the keys that the user interface sees.
pub struct InputHandler {}

impl InputHandler {
    pub fn new() -> (r: InputHandler)
        ensures
            r == (InputHandler {  }),
    {
        InputHandler {  }
    }

    /// The line to report for an event: one for each key event, none for
    /// other events.
    pub fn on_event(&mut self, event: &UiEvent) -> (line: Option<String>)
        ensures
            match event {
                UiEvent::Key { name, pressed } => line is Some && line->0@ == key_line(
                    name@,
                    *pressed,
                ),
                UiEvent::Other => line is None,
            },
    {
        match event {
            UiEvent::Key { name, pressed } => {
                let mut line = name.clone();
                line.append(" = ");
                if *pressed {
                    line.append("true");
                } else {
                    line.append("false");
                }
                proof {
                    reveal_strlit(" = ");
                    reveal_strlit("true");
                    reveal_strlit("false");
                }
                Some(line)
            },
            UiEvent::Other => None,
        }
    }
}

/// The line for a key event is the key's whole name, then ` = `, then
/// `true` or `false`: nothing of the name is cut, whatever its length.
pub proof fn lemma_key_line_shape(name: Seq<char>, pressed: bool)
    ensures
        key_line(name, pressed).len() == name.len() as int + 3 + (if pressed {
            4int
        } else {
            5int
        }),
        key_line(name, pressed).subrange(0, name.len() as int) == name,
        key_line(name, pressed).subrange(name.len() as int, name.len() as int + 3) == seq![' ', '=', ' '],
        pressed ==> key_line(name, pressed).subrange(name.len() as int + 3, name.len() as int + 7) == seq![
            't',
            'r',
            'u',
            'e',
        ],
        !pressed ==> key_line(name, pressed).subrange(name.len() as int + 3, name.len() as int + 8) == seq![
            'f',
            'a',
            'l',
            's',
            'e',
        ],
{
    let line = key_line(name, pressed);
    assert(line.subrange(0, name.len() as int) =~= name);
    assert(line.subrange(name.len() as int, name.len() as int + 3) =~= seq![' ', '=', ' ']);
    if pressed {
        assert(line.subrange(name.len() as int + 3, name.len() as int + 7) =~= seq!['t', 'r', 'u', 'e']);
    } else {
        assert(line.subrange(name.len() as int + 3, name.len() as int + 8) =~= seq!['f', 'a', 'l', 's', 'e']);
    }
}

} // verus!
