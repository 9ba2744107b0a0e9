//! The dispatch state machine: how the authoritative state reacts to each
//! semantic event, and the control instructions it owes the collector when
//! the mode changes.
use vstd::prelude::*;
use vstd::string::*;
use crate::command::{is_exit_text, Command, ParseError};
use crate::event::Event;
use crate::key::KeyEvent;
use crate::mapper::{map_key, mode_map};
use crate::state::{Mode, State, StateModel};

verus! {

/// A control instruction from the dispatch loop to the collector.
#[derive(Clone, Copy, PartialEq, Eq, Debug, Structural)]
pub enum Request {
    /// Terminate the collector task; its only normal end.
    Stop,
    /// Install the mapper that belongs to this mode.
    UseMapper(Mode),
}

/// Relies on String::push: appends the given character to the end of the
/// string.
pub assume_specification[ String::push ](s: &mut String, ch: char)
    ensures
        final(s)@ == old(s)@.push(ch),
;

/// Relies on String::pop: removes the last character of the string and
/// returns it, or returns None and leaves the string alone when it is empty.
pub assume_specification[ String::pop ](s: &mut String) -> (r: Option<char>)
    ensures
        old(s)@.len() == 0 ==> r is None && final(s)@ == old(s)@,
        old(s)@.len() > 0 ==> r == Some(old(s)@.last()) && final(s)@ == old(s)@.drop_last(),
;

/// The text handed to the command parser on submission: the buffer minus its
/// leading ':' separator, when one is there.
pub open spec fn submitted_text(buf: Seq<char>) -> Seq<char> {
    if buf.len() > 0 && buf[0] == ':' {
        buf.subrange(1, buf.len() as int)
    } else {
        buf
    }
}

/// One step of the dispatch table: the state after applying one semantic
/// event. Events that the current mode's row does not list leave the state
/// unchanged.
pub open spec fn spec_apply(m: StateModel, e: Event) -> StateModel {
    match e {
        Event::Exit => StateModel { exit_requested: true, ..m },
        Event::UseMode(mode) => StateModel { mode, command_buffer: Seq::empty(), ..m },
        Event::AppendCommandBuffer(c) => if m.mode is Command {
            StateModel { command_buffer: m.command_buffer.push(c), ..m }
        } else {
            m
        },
        Event::PopCommandBuffer => if m.mode is Command {
            let popped = if m.command_buffer.len() > 0 {
                m.command_buffer.drop_last()
            } else {
                m.command_buffer
            };
            if popped.len() == 0 {
                StateModel { mode: Mode::Normal, command_buffer: popped, ..m }
            } else {
                StateModel { command_buffer: popped, ..m }
            }
        } else {
            m
        },
        Event::SubmitCommand => if m.mode is Command {
            if is_exit_text(submitted_text(m.command_buffer)) {
                StateModel {
                    mode: Mode::Normal,
                    command_buffer: Seq::empty(),
                    exit_requested: true,
                    ..m
                }
            } else {
                StateModel {
                    mode: Mode::Normal,
                    command_buffer: Seq::empty(),
                    error_text: Some("invalid command"@),
                    ..m
                }
            }
        } else {
            m
        },
    }
}

/// The control instruction one dispatch step owes the collector: the matching
/// mapper switch exactly when the step changed the mode.
pub open spec fn spec_request(m: StateModel, e: Event) -> Option<Request> {
    if spec_apply(m, e).mode != m.mode {
        Some(Request::UseMapper(spec_apply(m, e).mode))
    } else {
        None
    }
}

/// The state after dispatching a sequence of events in order.
pub open spec fn apply_events(m: StateModel, evs: Seq<Event>) -> StateModel
    decreases evs.len(),
{
    if evs.len() == 0 {
        m
    } else {
        apply_events(spec_apply(m, evs[0]), evs.drop_first())
    }
}

/// The control instructions owed for a sequence of events, in dispatch order.
pub open spec fn requests_of(m: StateModel, evs: Seq<Event>) -> Seq<Request>
    decreases evs.len(),
{
    if evs.len() == 0 {
        Seq::empty()
    } else {
        let rest = requests_of(spec_apply(m, evs[0]), evs.drop_first());
        match spec_request(m, evs[0]) {
            Some(q) => seq![q] + rest,
            None => rest,
        }
    }
}

/// The state after one key: the key is mapped under the mode in force and
/// every resulting event is dispatched in order.
pub open spec fn step_key(m: StateModel, key: KeyEvent) -> StateModel {
    apply_events(m, mode_map(m.mode, key))
}

/// The state after a whole sequence of keys, each mapped under the mode left
/// behind by the keys before it.
pub open spec fn run_keys(m: StateModel, keys: Seq<KeyEvent>) -> StateModel
    decreases keys.len(),
{
    if keys.len() == 0 {
        m
    } else {
        run_keys(step_key(m, keys[0]), keys.drop_first())
    }
}

/// Dispatching a single event is one step of the dispatch table.
pub proof fn lemma_apply_events_one(m: StateModel, e: Event)
    ensures
        apply_events(m, seq![e]) == spec_apply(m, e),
{
    let s = seq![e];
    assert(s[0] == e);
    assert(s.drop_first() =~= Seq::<Event>::empty());
    assert(apply_events(m, s) == apply_events(spec_apply(m, e), s.drop_first()));
    assert(apply_events(spec_apply(m, e), Seq::<Event>::empty()) == spec_apply(m, e));
}

/// Dispatching two events is two steps of the dispatch table, in order.
pub proof fn lemma_apply_events_two(m: StateModel, e1: Event, e2: Event)
    ensures
        apply_events(m, seq![e1, e2]) == spec_apply(spec_apply(m, e1), e2),
{
    let s = seq![e1, e2];
    assert(s[0] == e1);
    assert(s.drop_first() =~= seq![e2]);
    assert(apply_events(m, s) == apply_events(spec_apply(m, e1), s.drop_first()));
    lemma_apply_events_one(spec_apply(m, e1), e2);
}

/// Dispatching the events of a sequence extended by one more event first
/// dispatches the sequence, then the extra event.
pub proof fn lemma_apply_events_snoc(m: StateModel, evs: Seq<Event>, e: Event)
    ensures
        apply_events(m, evs.push(e)) == spec_apply(apply_events(m, evs), e),
    decreases evs.len(),
{
    if evs.len() == 0 {
        assert(evs.push(e)[0] == e);
        assert(evs.push(e).drop_first() =~= Seq::<Event>::empty());
        assert(apply_events(spec_apply(m, e), Seq::<Event>::empty()) == spec_apply(m, e));
    } else {
        assert(evs.push(e)[0] == evs[0]);
        assert(evs.push(e).drop_first() =~= evs.drop_first().push(e));
        lemma_apply_events_snoc(spec_apply(m, evs[0]), evs.drop_first(), e);
    }
}

/// The requests owed for a sequence extended by one more event are those of
/// the sequence, followed by whatever the extra event owes.
pub proof fn lemma_requests_of_snoc(m: StateModel, evs: Seq<Event>, e: Event)
    ensures
        requests_of(m, evs.push(e)) == requests_of(m, evs) + (match spec_request(
            apply_events(m, evs),
            e,
        ) {
            Some(q) => seq![q],
            None => Seq::<Request>::empty(),
        }),
    decreases evs.len(),
{
    let tail = (match spec_request(apply_events(m, evs), e) {
        Some(q) => seq![q],
        None => Seq::<Request>::empty(),
    });
    if evs.len() == 0 {
        assert(evs.push(e)[0] == e);
        assert(evs.push(e).drop_first() =~= Seq::<Event>::empty());
        assert(requests_of(spec_apply(m, e), Seq::<Event>::empty()) == Seq::<Request>::empty());
        assert(requests_of(m, evs.push(e)) =~= tail);
        assert(requests_of(m, evs) + tail =~= tail);
    } else {
        assert(evs.push(e)[0] == evs[0]);
        assert(evs.push(e).drop_first() =~= evs.drop_first().push(e));
        lemma_requests_of_snoc(spec_apply(m, evs[0]), evs.drop_first(), e);
        match spec_request(m, evs[0]) {
            Some(q) => {
                assert(requests_of(m, evs.push(e)) =~= requests_of(m, evs) + tail);
            },
            None => {},
        }
    }
}

impl State {
    /// Execute a fully parsed command; the only command today asks to exit.
    pub fn execute_command(&mut self, command: Command)
        ensures
            final(self)@ == (match command {
                Command::Exit => StateModel { exit_requested: true, ..old(self)@ }
            }),
            final(self).page == old(self).page,
            final(self).page_state == old(self).page_state,
    {
        match command {
            Command::Exit => self.exit_requested = true,
        }
    }

    /// Surface a parser rejection as the transient error text of this frame.
    pub fn emit_error(&mut self, error: ParseError)
        ensures
            final(self)@ == (StateModel {
                error_text: Some(error.message_spec()),
                ..old(self)@
            }),
            final(self).page == old(self).page,
            final(self).page_state == old(self).page_state,
    {
        self.error_text = Some(error.message());
    }

    /// Drop the transient error text; the dispatch loop does this at the
    /// start of every iteration, so an error is visible for one frame only.
    pub fn clear_temp_state(&mut self)
        ensures
            final(self)@ == (StateModel { error_text: None, ..old(self)@ }),
            final(self).page == old(self).page,
            final(self).page_state == old(self).page_state,
    {
        self.error_text = None;
    }

    /// Apply one semantic event as the dispatch table says, and return the
    /// control instruction owed to the collector when the mode changed.
    pub fn handle_event(&mut self, event: Event) -> (r: Option<Request>)
        ensures
            final(self)@ == spec_apply(old(self)@, event),
            r == spec_request(old(self)@, event),
            final(self).page == old(self).page,
            final(self).page_state == old(self).page_state,
    {
        let old_mode = self.mode;
        match event {
            Event::Exit => {
                self.exit_requested = true;
            },
            Event::UseMode(mode) => {
                self.command_buffer = String::new();
                self.mode = mode;
            },
            Event::AppendCommandBuffer(c) => {
                if self.mode == Mode::Command {
                    self.command_buffer.push(c);
                }
            },
            Event::PopCommandBuffer => {
                if self.mode == Mode::Command {
                    self.command_buffer.pop();
                    if self.command_buffer.as_str().is_empty() {
                        self.mode = Mode::Normal;
                    }
                }
            },
            Event::SubmitCommand => {
                if self.mode == Mode::Command {
                    let parsed = {
                        let text = self.command_buffer.as_str();
                        let n = text.unicode_len();
                        let stripped: &str = if n > 0 && text.get_char(0) == ':' {
                            text.substring_char(1, n)
                        } else {
                            text
                        };
                        Command::from_str(stripped)
                    };
                    match parsed {
                        Ok(command) => self.execute_command(command),
                        Err(e) => self.emit_error(e),
                    }
                    self.command_buffer = String::new();
                    self.mode = Mode::Normal;
                }
            },
        }
        let r = if self.mode != old_mode {
            Some(Request::UseMapper(self.mode))
        } else {
            None
        };
        proof {
            assert(self@ =~= spec_apply(old(self)@, event));
        }
        r
    }

    /// Map one key under the mode in force and dispatch every resulting
    /// event in order; the returned instructions, in order, are what the
    /// collector must be told so its mapper follows the mode.
    pub fn process_key(&mut self, key: KeyEvent) -> (reqs: Vec<Request>)
        ensures
            final(self)@ == step_key(old(self)@, key),
            reqs@ == requests_of(old(self)@, mode_map(old(self)@.mode, key)),
            final(self).page == old(self).page,
            final(self).page_state == old(self).page_state,
    {
        let events = map_key(self.mode, key);
        let ghost evs = events@;
        let ghost m0 = self@;
        let ghost page0 = self.page;
        let ghost page_state0 = self.page_state;
        let mut reqs: Vec<Request> = Vec::new();
        let mut i: usize = 0;
        while i < events.len()
            invariant
                i <= events.len(),
                events@ == evs,
                self@ == apply_events(m0, evs.take(i as int)),
                reqs@ == requests_of(m0, evs.take(i as int)),
                self.page == page0,
                self.page_state == page_state0,
            decreases events.len() - i,
        {
            let e = events[i];
            proof {
                assert(evs.take(i as int + 1) =~= evs.take(i as int).push(evs[i as int]));
                lemma_apply_events_snoc(m0, evs.take(i as int), evs[i as int]);
                lemma_requests_of_snoc(m0, evs.take(i as int), evs[i as int]);
            }
            let req = self.handle_event(e);
            if let Some(q) = req {
                reqs.push(q);
            }
            proof {
                assert(reqs@ =~= requests_of(m0, evs.take(i as int + 1)));
            }
            i = i + 1;
        }
        proof {
            assert(evs.take(events@.len() as int) =~= evs);
        }
        reqs
    }
}

} // verus!
