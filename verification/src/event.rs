//! The semantic events a key press can produce. Mappers are their only
//! producers and the dispatch loop their only consumer.
use vstd::prelude::*;
use crate::command::{is_exit_text, str_eq, ParseError};
use crate::state::Mode;

verus! {

/// A mode-independent effect of one key press.
#[derive(Clone, Copy, PartialEq, Eq, Debug, Structural)]
pub enum Event {
    /// Request that the application exit.
    Exit,
    /// Switch the active mode, clearing the command buffer.
    UseMode(Mode),
    /// Parse and execute the command buffer.
    SubmitCommand,
    /// Push one character onto the command buffer.
    AppendCommandBuffer(char),
    /// Drop the last character of the command buffer.
    PopCommandBuffer,
}

impl Event {
    /// The event parser: the same literal tokens as the command grammar, each
    /// naming the exit event; every other text is rejected.
    pub fn from_str(s: &str) -> (r: Result<Event, ParseError>)
        ensures
            r == (if is_exit_text(s@) {
                Ok::<Event, ParseError>(Event::Exit)
            } else {
                Err::<Event, ParseError>(ParseError::InvalidEvent)
            }),
    {
        if str_eq(s, "q") || str_eq(s, "wq") || str_eq(s, "q!") || str_eq(s, "wq!") {
            Ok(Event::Exit)
        } else {
            Err(ParseError::InvalidEvent)
        }
    }
}

} // verus!
