//! What the terminal delivers, as plain values, and the first meaning given
//! to it.

use vstd::prelude::*;

verus! {

/// The key of a key press, as far as the application tells keys apart.
#[derive(Clone, Copy, Debug, PartialEq, Eq, Structural)]
pub enum Key {
    /// A character key.
    Char(char),
    /// The escape key.
    Esc,
    /// Any other key.
    Other,
}

/// One key press.
#[derive(Clone, Copy, Debug, PartialEq, Eq, Structural)]
pub struct KeyPress {
    /// The key that was pressed.
    pub code: Key,
    /// Whether the control key was held.
    pub control: bool,
}

/// One event of the terminal.
#[derive(Clone, Copy, Debug, PartialEq, Eq, Structural)]
pub enum Input {
    /// A key was pressed.
    Key(KeyPress),
    /// The terminal was resized to this width and height.
    Resize(u16, u16),
    /// Anything else: focus, mouse, paste.
    Other,
}

/// What a key asks of an application that only shows frames.
#[derive(Clone, Copy, Debug, PartialEq, Eq, Structural)]
pub enum KeyAction {
    /// Leave the application.
    Exit,
    /// Do nothing.
    NoAction,
    /// Show the next camera frame.
    CamFrame,
}

impl KeyAction {
    /// The action that an input asks for: the escape key asks to exit, and
    /// nothing else asks for anything.
    pub open spec fn spec_from_input(input: Input) -> Option<KeyAction> {
        match input {
            Input::Key(key) => if key.code == Key::Esc {
                Some(KeyAction::Exit)
            } else {
                None
            },
            _ => None,
        }
    }

    /// Finds the action that an input asks for, if any.
    #[verifier::when_used_as_spec(spec_from_input)]
    pub fn from_input(input: Input) -> (action: Option<KeyAction>)
        ensures
            action == KeyAction::spec_from_input(input),
    {
        match input {
            Input::Key(key) => match key.code {
                Key::Esc => Some(KeyAction::Exit),
                _ => None,
            },
            _ => None,
        }
    }
}

} // verus!
