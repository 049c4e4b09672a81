//! The events that travel on the application's bus.

use vstd::prelude::*;
use ratatui::text::Text;
use crate::event_handler::{Input, KeyPress};

verus! {

/// One event on the bus, from the capture task or from the input task.
pub enum AppEvent {
    /// A rendered camera frame
    AsciiFrame(Text<'static>),
    /// A key press
    Event(KeyPress),
    /// The terminal's new size (width, height)
    TerminalResize((u16, u16)),
}

impl AppEvent {
    /// The event that an input is published as: a key press and a resize are
    /// passed on as they are, unfiltered, and nothing else is published.
    pub open spec fn spec_from_input(input: Input) -> Option<AppEvent> {
        match input {
            Input::Key(key) => Some(AppEvent::Event(key)),
            Input::Resize(width, height) => Some(AppEvent::TerminalResize((width, height))),
            Input::Other => None,
        }
    }

    /// Maps an input of the terminal to the event to publish, if any.
    #[verifier::when_used_as_spec(spec_from_input)]
    pub fn from_input(input: Input) -> (event: Option<AppEvent>)
        ensures
            event == AppEvent::spec_from_input(input),
    {
        match input {
            Input::Key(key) => Some(AppEvent::Event(key)),
            Input::Resize(width, height) => Some(AppEvent::TerminalResize((width, height))),
            Input::Other => None,
        }
    }
}

} // verus!
