//! Mode-scoped key mapping: a pure strategy per mode that turns one raw key
//! event into the ordered sequence of semantic events it stands for.
use vstd::prelude::*;
use crate::event::Event;
use crate::key::{KeyCode, KeyEvent};
use crate::state::Mode;

verus! {

/// What the Normal-mode mapper makes of a key: ':' opens Command mode and
/// seeds the buffer with the separator, Ctrl-c asks to exit, everything else
/// maps to nothing.
pub open spec fn normal_map(key: KeyEvent) -> Seq<Event> {
    match key.code {
        KeyCode::Char(c) => if c == ':' {
            seq![Event::UseMode(Mode::Command), Event::AppendCommandBuffer(':')]
        } else if c == 'c' && key.ctrl {
            seq![Event::Exit]
        } else {
            Seq::empty()
        },
        _ => Seq::empty(),
    }
}

/// What the Command-mode mapper makes of a key: Esc leaves to Normal mode,
/// Enter submits, any character is appended, Backspace pops, everything else
/// maps to nothing.
pub open spec fn command_map(key: KeyEvent) -> Seq<Event> {
    match key.code {
        KeyCode::Esc => seq![Event::UseMode(Mode::Normal)],
        KeyCode::Enter => seq![Event::SubmitCommand],
        KeyCode::Char(c) => seq![Event::AppendCommandBuffer(c)],
        KeyCode::Backspace => seq![Event::PopCommandBuffer],
        KeyCode::Other => Seq::empty(),
    }
}

/// The mapping in force under a given mode.
pub open spec fn mode_map(mode: Mode, key: KeyEvent) -> Seq<Event> {
    match mode {
        Mode::Normal => normal_map(key),
        Mode::Command => command_map(key),
    }
}

/// Whether some clause of the given mode's mapper recognizes the key.
pub open spec fn recognized(mode: Mode, key: KeyEvent) -> bool {
    match mode {
        Mode::Normal => key.code matches KeyCode::Char(c) && (c == ':' || (c == 'c' && key.ctrl)),
        Mode::Command => !(key.code is Other),
    }
}

/// Law: a key that no clause of the active mode's mapper recognizes maps to
/// the empty event sequence — unmapped keys are silently ignored.
pub proof fn lemma_unrecognized_key_maps_to_nothing(mode: Mode, key: KeyEvent)
    requires
        !recognized(mode, key),
    ensures
        mode_map(mode, key) == Seq::<Event>::empty(),
{
}

/// A strategy for turning one raw key event into semantic events, selected
/// by the active mode. Swapping the whole strategy keeps a new mode a local,
/// closed change.
pub trait EventMapper {
    /// The events this mapper produces for a key.
    spec fn map_spec(&self, key: KeyEvent) -> Seq<Event>;

    /// Translate one raw key event into the ordered semantic events it
    /// stands for; unrecognized keys yield nothing, never an error.
    fn map_from_key(&self, key: KeyEvent) -> (r: Vec<Event>)
        ensures
            r@ == self.map_spec(key),
    ;
}

/// The strategy in force while in Normal mode.
pub struct NormalMapper;

impl EventMapper for NormalMapper {
    open spec fn map_spec(&self, key: KeyEvent) -> Seq<Event> {
        normal_map(key)
    }

    fn map_from_key(&self, key: KeyEvent) -> (r: Vec<Event>) {
        let mut r: Vec<Event> = Vec::new();
        match key.code {
            KeyCode::Char(c) => {
                if c == ':' {
                    r.push(Event::UseMode(Mode::Command));
                    r.push(Event::AppendCommandBuffer(':'));
                } else if c == 'c' && key.ctrl {
                    r.push(Event::Exit);
                }
            },
            _ => {},
        }
        proof {
            assert(r@ =~= normal_map(key));
        }
        r
    }
}

/// The strategy in force while in Command mode.
pub struct CommandMapper;

impl EventMapper for CommandMapper {
    open spec fn map_spec(&self, key: KeyEvent) -> Seq<Event> {
        command_map(key)
    }

    fn map_from_key(&self, key: KeyEvent) -> (r: Vec<Event>) {
        let mut r: Vec<Event> = Vec::new();
        match key.code {
            KeyCode::Esc => r.push(Event::UseMode(Mode::Normal)),
            KeyCode::Enter => r.push(Event::SubmitCommand),
            KeyCode::Char(c) => r.push(Event::AppendCommandBuffer(c)),
            KeyCode::Backspace => r.push(Event::PopCommandBuffer),
            KeyCode::Other => {},
        }
        proof {
            assert(r@ =~= command_map(key));
        }
        r
    }
}

/// Map one key under the mapper that belongs to the given mode.
pub fn map_key(mode: Mode, key: KeyEvent) -> (r: Vec<Event>)
    ensures
        r@ == mode_map(mode, key),
{
    match mode {
        Mode::Normal => NormalMapper.map_from_key(key),
        Mode::Command => CommandMapper.map_from_key(key),
    }
}

} // verus!
