use nmvi::collector::CollectorState;
use nmvi::dispatch::Request;
use nmvi::event::Event;
use nmvi::key::{KeyCode, KeyEvent};
use nmvi::state::{Mode, Page, State};

fn press(state: &mut State, code: KeyCode) -> Vec<Request> {
    state.process_key(KeyEvent::plain(code))
}

fn type_text(state: &mut State, text: &str) {
    for ch in text.chars() {
        press(state, KeyCode::Char(ch));
    }
}

#[test]
fn startup_state() {
    let s = State::default();
    assert_eq!(s.mode, Mode::Normal);
    assert_eq!(s.command_buffer, "");
    assert_eq!(s.error_text, None);
    assert!(!s.exit_requested);
    assert_eq!(s.page, Page::Devices);
    assert!(s.page_state.is_none());
}

#[test]
fn colon_q_enter_requests_exit() {
    let mut s = State::default();
    type_text(&mut s, ":q");
    press(&mut s, KeyCode::Enter);
    assert!(s.exit_requested);
    assert_eq!(s.mode, Mode::Normal);
    assert_eq!(s.command_buffer, "");
    assert_eq!(s.error_text, None);
}

#[test]
fn colon_x_enter_raises_invalid_command() {
    let mut s = State::default();
    type_text(&mut s, ":x");
    press(&mut s, KeyCode::Enter);
    assert!(!s.exit_requested);
    assert_eq!(s.mode, Mode::Normal);
    assert_eq!(s.command_buffer, "");
    assert_eq!(s.error_text, Some(String::from("invalid command")));
}

#[test]
fn every_exit_token_works_through_the_pipeline() {
    for token in ["q", "wq", "q!", "wq!"] {
        let mut s = State::default();
        press(&mut s, KeyCode::Char(':'));
        type_text(&mut s, token);
        press(&mut s, KeyCode::Enter);
        assert!(s.exit_requested, "token {token} should exit");
        assert_eq!(s.error_text, None);
    }
}

#[test]
fn ctrl_c_in_normal_mode_always_requests_exit() {
    let mut s = State::default();
    s.command_buffer = String::from("leftover");
    s.process_key(KeyEvent::with_ctrl(KeyCode::Char('c')));
    assert!(s.exit_requested);
    assert_eq!(s.mode, Mode::Normal);
    assert_eq!(s.command_buffer, "leftover");
}

#[test]
fn colon_then_esc_is_a_round_trip() {
    let mut s = State::default();
    press(&mut s, KeyCode::Char(':'));
    assert_eq!(s.mode, Mode::Command);
    assert_eq!(s.command_buffer, ":");
    press(&mut s, KeyCode::Esc);
    assert_eq!(s.mode, Mode::Normal);
    assert_eq!(s.command_buffer, "");
    assert!(!s.exit_requested);
}

#[test]
fn backspace_to_empty_returns_to_normal_mode() {
    let mut s = State::default();
    type_text(&mut s, ":a");
    assert_eq!(s.mode, Mode::Command);
    press(&mut s, KeyCode::Backspace);
    assert_eq!(s.mode, Mode::Command);
    assert_eq!(s.command_buffer, ":");
    let reqs = press(&mut s, KeyCode::Backspace);
    assert_eq!(s.mode, Mode::Normal);
    assert_eq!(s.command_buffer, "");
    assert_eq!(reqs, vec![Request::UseMapper(Mode::Normal)]);
}

#[test]
fn error_text_is_cleared_at_the_start_of_the_next_iteration() {
    let mut s = State::default();
    type_text(&mut s, ":x");
    press(&mut s, KeyCode::Enter);
    assert_eq!(s.error_text, Some(String::from("invalid command")));
    s.clear_temp_state();
    assert_eq!(s.error_text, None);
    assert_eq!(s.mode, Mode::Normal);
}

#[test]
fn submitting_without_separator_still_parses_the_text() {
    let mut s = State::default();
    s.mode = Mode::Command;
    s.command_buffer = String::from("wq");
    s.process_key(KeyEvent::plain(KeyCode::Enter));
    assert!(s.exit_requested);
    assert_eq!(s.command_buffer, "");
}

#[test]
fn append_and_pop_are_ignored_in_normal_mode() {
    let mut s = State::default();
    let r1 = s.handle_event(Event::AppendCommandBuffer('z'));
    let r2 = s.handle_event(Event::PopCommandBuffer);
    assert_eq!(s.mode, Mode::Normal);
    assert_eq!(s.command_buffer, "");
    assert_eq!(r1, None);
    assert_eq!(r2, None);
}

#[test]
fn mode_changes_announce_the_matching_mapper_switch() {
    let mut s = State::default();
    let reqs = press(&mut s, KeyCode::Char(':'));
    assert_eq!(reqs, vec![Request::UseMapper(Mode::Command)]);
    let reqs = press(&mut s, KeyCode::Char('q'));
    assert_eq!(reqs, vec![]);
    let reqs = press(&mut s, KeyCode::Enter);
    assert_eq!(reqs, vec![Request::UseMapper(Mode::Normal)]);
}

#[test]
fn collector_installs_announced_mapper_before_mapping_later_keys() {
    let mut s = State::default();
    let mut c = CollectorState::new();
    // The 'q' key is unrecognized under the Normal mapper; once the switch
    // announced for ':' is installed, the same key is appended instead.
    assert_eq!(c.handle_input(KeyEvent::plain(KeyCode::Char('q'))), vec![]);
    for req in press(&mut s, KeyCode::Char(':')) {
        c.handle_request(req);
    }
    assert_eq!(c.mode, Mode::Command);
    assert_eq!(
        c.handle_input(KeyEvent::plain(KeyCode::Char('q'))),
        vec![Event::AppendCommandBuffer('q')]
    );
}

#[test]
fn collector_stop_request_ends_the_task() {
    let mut c = CollectorState::new();
    assert!(!c.stop_requested);
    c.handle_request(Request::Stop);
    assert!(c.stop_requested);
}
