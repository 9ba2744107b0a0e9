//! The command grammar: the parser from submitted command text to a typed
//! command, and the rejection it produces for any other text.
use vstd::prelude::*;
use vstd::string::*;

verus! {

/// A fully parsed user command.
#[derive(Clone, Copy, PartialEq, Eq, Debug, Structural)]
pub enum Command {
    Exit,
}

/// A parser rejection, carrying which grammar refused the text.
#[derive(Clone, Copy, PartialEq, Eq, Debug, Structural)]
pub enum ParseError {
    /// The command grammar matched none of its tokens.
    InvalidCommand,
    /// The event grammar matched none of its tokens.
    InvalidEvent,
}

impl ParseError {
    /// The text shown to the user for this rejection.
    pub open spec fn message_spec(self) -> Seq<char> {
        match self {
            ParseError::InvalidCommand => "invalid command"@,
            ParseError::InvalidEvent => "invalid event"@,
        }
    }

    /// The user-visible message for this rejection.
    pub fn message(&self) -> (r: String)
        ensures
            r@ == self.message_spec(),
    {
        match self {
            ParseError::InvalidCommand => String::from_str("invalid command"),
            ParseError::InvalidEvent => String::from_str("invalid event"),
        }
    }
}

/// The texts the command grammar accepts; every one of them means exit.
pub open spec fn is_exit_text(s: Seq<char>) -> bool {
    ||| s == "q"@
    ||| s == "wq"@
    ||| s == "q!"@
    ||| s == "wq!"@
}

/// Character-by-character equality of two string slices.
pub fn str_eq(a: &str, b: &str) -> (r: bool)
    ensures
        r == (a@ == b@),
{
    let a_len = a.unicode_len();
    let b_len = b.unicode_len();
    if a_len != b_len {
        return false;
    }
    let mut i: usize = 0;
    while i < a_len
        invariant
            i <= a_len,
            a_len == a@.len(),
            b_len == b@.len(),
            a_len == b_len,
            forall|j: int| 0 <= j < i ==> a@[j] == b@[j],
        decreases a_len - i,
    {
        if a.get_char(i) != b.get_char(i) {
            return false;
        }
        i = i + 1;
    }
    proof {
        assert(a@ =~= b@);
    }
    true
}

impl Command {
    /// The command parser: accepts exactly the exit tokens of the grammar and
    /// rejects every other text with the invalid-command message.
    pub fn from_str(s: &str) -> (r: Result<Command, ParseError>)
        ensures
            r == (if is_exit_text(s@) {
                Ok::<Command, ParseError>(Command::Exit)
            } else {
                Err::<Command, ParseError>(ParseError::InvalidCommand)
            }),
    {
        if str_eq(s, "q") || str_eq(s, "wq") || str_eq(s, "q!") || str_eq(s, "wq!") {
            Ok(Command::Exit)
        } else {
            Err(ParseError::InvalidCommand)
        }
    }
}

} // verus!
