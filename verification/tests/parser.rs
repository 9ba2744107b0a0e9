use nmvi::command::{Command, ParseError};
use nmvi::event::Event;
use nmvi::state::Mode;

#[test]
fn command_parser_accepts_every_exit_token() {
    assert!(matches!(Command::from_str("q"), Ok(Command::Exit)));
    assert!(matches!(Command::from_str("wq"), Ok(Command::Exit)));
    assert!(matches!(Command::from_str("q!"), Ok(Command::Exit)));
    assert!(matches!(Command::from_str("wq!"), Ok(Command::Exit)));
}

#[test]
fn command_parser_rejects_everything_else() {
    assert_eq!(Command::from_str("x"), Err(ParseError::InvalidCommand));
    assert_eq!(Command::from_str(""), Err(ParseError::InvalidCommand));
    assert_eq!(Command::from_str("qq"), Err(ParseError::InvalidCommand));
    assert_eq!(Command::from_str("w"), Err(ParseError::InvalidCommand));
    assert_eq!(Command::from_str("q !"), Err(ParseError::InvalidCommand));
    assert_eq!(Command::from_str(":q"), Err(ParseError::InvalidCommand));
    assert_eq!(Command::from_str("wq!!"), Err(ParseError::InvalidCommand));
}

#[test]
fn command_rejection_message_is_invalid_command() {
    let e = Command::from_str("nope").unwrap_err();
    assert_eq!(e.message(), "invalid command");
}

#[test]
fn event_parser_accepts_the_same_tokens() {
    assert!(matches!(Event::from_str("q"), Ok(Event::Exit)));
    assert!(matches!(Event::from_str("wq"), Ok(Event::Exit)));
    assert!(matches!(Event::from_str("q!"), Ok(Event::Exit)));
    assert!(matches!(Event::from_str("wq!"), Ok(Event::Exit)));
}

#[test]
fn event_parser_rejects_with_its_own_message() {
    let e = Event::from_str("devices").unwrap_err();
    assert_eq!(e, ParseError::InvalidEvent);
    assert_eq!(e.message(), "invalid event");
}

#[test]
fn mode_labels() {
    assert_eq!(Mode::Normal.label(), "NORMAL");
    assert_eq!(Mode::Command.label(), "COMMAND");
}
