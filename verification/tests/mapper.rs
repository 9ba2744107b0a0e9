use nmvi::event::Event;
use nmvi::key::{KeyCode, KeyEvent};
use nmvi::mapper::{map_key, CommandMapper, EventMapper, NormalMapper};
use nmvi::state::Mode;

fn plain(code: KeyCode) -> KeyEvent {
    KeyEvent::plain(code)
}

#[test]
fn normal_mapper_colon_opens_command_mode_with_separator() {
    let events = NormalMapper.map_from_key(plain(KeyCode::Char(':')));
    assert_eq!(
        events,
        vec![
            Event::UseMode(Mode::Command),
            Event::AppendCommandBuffer(':'),
        ]
    );
}

#[test]
fn normal_mapper_ctrl_c_exits() {
    let events = NormalMapper.map_from_key(KeyEvent::with_ctrl(KeyCode::Char('c')));
    assert_eq!(events, vec![Event::Exit]);
}

#[test]
fn normal_mapper_plain_c_is_unrecognized() {
    assert_eq!(NormalMapper.map_from_key(plain(KeyCode::Char('c'))), vec![]);
}

#[test]
fn command_mapper_clauses() {
    assert_eq!(
        CommandMapper.map_from_key(plain(KeyCode::Esc)),
        vec![Event::UseMode(Mode::Normal)]
    );
    assert_eq!(
        CommandMapper.map_from_key(plain(KeyCode::Enter)),
        vec![Event::SubmitCommand]
    );
    assert_eq!(
        CommandMapper.map_from_key(plain(KeyCode::Char('w'))),
        vec![Event::AppendCommandBuffer('w')]
    );
    assert_eq!(
        CommandMapper.map_from_key(plain(KeyCode::Backspace)),
        vec![Event::PopCommandBuffer]
    );
}

#[test]
fn unrecognized_keys_map_to_nothing_in_both_modes() {
    assert_eq!(map_key(Mode::Normal, plain(KeyCode::Char('z'))), vec![]);
    assert_eq!(map_key(Mode::Normal, plain(KeyCode::Esc)), vec![]);
    assert_eq!(map_key(Mode::Normal, plain(KeyCode::Enter)), vec![]);
    assert_eq!(map_key(Mode::Normal, plain(KeyCode::Backspace)), vec![]);
    assert_eq!(map_key(Mode::Normal, plain(KeyCode::Other)), vec![]);
    assert_eq!(map_key(Mode::Command, plain(KeyCode::Other)), vec![]);
    assert_eq!(
        map_key(Mode::Normal, KeyEvent::with_ctrl(KeyCode::Char('x'))),
        vec![]
    );
}

#[test]
fn map_key_selects_the_strategy_of_the_mode() {
    let esc = plain(KeyCode::Esc);
    assert_eq!(map_key(Mode::Normal, esc), vec![]);
    assert_eq!(map_key(Mode::Command, esc), vec![Event::UseMode(Mode::Normal)]);
}
