//! The laws of the pipeline, proved over the dispatch model: what a whole
//! run of keys does to the state, and the invariants the loop keeps.
use vstd::prelude::*;
use crate::command::is_exit_text;
use crate::dispatch::{
    apply_events, lemma_apply_events_one, lemma_apply_events_two, run_keys, spec_apply, step_key,
    submitted_text,
};
use crate::event::Event;
use crate::key::{KeyCode, KeyEvent};
use crate::mapper::mode_map;
use crate::state::{Mode, StateModel};

verus! {

/// The start of a dispatch-loop iteration: the transient error text of the
/// previous frame is dropped before any new event is applied.
pub open spec fn clear_temp(m: StateModel) -> StateModel {
    StateModel { error_text: None, ..m }
}

/// One full dispatch-loop iteration after the frame is rendered: clear the
/// transient error, then apply the one event awaited from the collector.
pub open spec fn iteration(m: StateModel, e: Event) -> StateModel {
    spec_apply(clear_temp(m), e)
}

/// Running a key sequence extended by one more key runs the sequence, then
/// steps the extra key from the state it left behind.
pub proof fn lemma_run_keys_snoc(m: StateModel, keys: Seq<KeyEvent>, k: KeyEvent)
    ensures
        run_keys(m, keys.push(k)) == step_key(run_keys(m, keys), k),
    decreases keys.len(),
{
    if keys.len() == 0 {
        assert(keys.push(k)[0] == k);
        assert(keys.push(k).drop_first() =~= Seq::<KeyEvent>::empty());
        assert(run_keys(step_key(m, k), Seq::<KeyEvent>::empty()) == step_key(m, k));
    } else {
        assert(keys.push(k)[0] == keys[0]);
        assert(keys.push(k).drop_first() =~= keys.drop_first().push(k));
        lemma_run_keys_snoc(step_key(m, keys[0]), keys.drop_first(), k);
    }
}

/// Law (no stale mapper): in a run, every key is interpreted by the mapper
/// of the mode announced after all the keys before it — a mode switch is
/// installed before any key typed strictly after it is mapped.
pub proof fn lemma_mode_switch_installed_before_next_key(
    m: StateModel,
    keys: Seq<KeyEvent>,
    i: int,
)
    requires
        0 <= i < keys.len(),
    ensures
        run_keys(m, keys.take(i + 1)) == apply_events(
            run_keys(m, keys.take(i)),
            mode_map(run_keys(m, keys.take(i)).mode, keys[i]),
        ),
{
    assert(keys.take(i + 1) =~= keys.take(i).push(keys[i]));
    lemma_run_keys_snoc(m, keys.take(i), keys[i]);
}

/// Law (round trip): typing ':' in Normal mode and then Esc lands back in
/// Normal mode with an empty command buffer, the rest of the state untouched.
pub proof fn lemma_colon_then_esc_round_trip(m: StateModel, colon: KeyEvent, esc: KeyEvent)
    requires
        m.mode is Normal,
        colon.code == KeyCode::Char(':'),
        esc.code == KeyCode::Esc,
    ensures
        step_key(step_key(m, colon), esc).mode is Normal,
        step_key(step_key(m, colon), esc).command_buffer == Seq::<char>::empty(),
        step_key(step_key(m, colon), esc).error_text == m.error_text,
        step_key(step_key(m, colon), esc).exit_requested == m.exit_requested,
{
    assert(mode_map(m.mode, colon) =~= seq![
        Event::UseMode(Mode::Command),
        Event::AppendCommandBuffer(':'),
    ]);
    lemma_apply_events_two(m, Event::UseMode(Mode::Command), Event::AppendCommandBuffer(':'));
    let mb = step_key(m, colon);
    assert(mode_map(mb.mode, esc) =~= seq![Event::UseMode(Mode::Normal)]);
    lemma_apply_events_one(mb, Event::UseMode(Mode::Normal));
}

/// Law: typing any characters while in Command mode appends them, in order,
/// to the command buffer, and changes nothing else.
pub proof fn lemma_typing_appends(m: StateModel, chars: Seq<char>, keys: Seq<KeyEvent>)
    requires
        m.mode is Command,
        keys.len() == chars.len(),
        forall|i: int| 0 <= i < keys.len() ==> keys[i].code == KeyCode::Char(chars[i]),
    ensures
        run_keys(m, keys).mode is Command,
        run_keys(m, keys).command_buffer == m.command_buffer + chars,
        run_keys(m, keys).error_text == m.error_text,
        run_keys(m, keys).exit_requested == m.exit_requested,
    decreases keys.len(),
{
    if keys.len() == 0 {
        assert(run_keys(m, keys) == m);
        assert(m.command_buffer + chars =~= m.command_buffer);
    } else {
        let k0 = keys[0];
        let c0 = chars[0];
        assert(mode_map(m.mode, k0) =~= seq![Event::AppendCommandBuffer(c0)]);
        lemma_apply_events_one(m, Event::AppendCommandBuffer(c0));
        let m1 = step_key(m, k0);
        assert(m1.command_buffer == m.command_buffer.push(c0));
        assert(forall|i: int|
            0 <= i < keys.drop_first().len() ==> keys.drop_first()[i].code == KeyCode::Char(
                chars.drop_first()[i],
            ));
        lemma_typing_appends(m1, chars.drop_first(), keys.drop_first());
        assert(run_keys(m, keys) == run_keys(m1, keys.drop_first()));
        assert(m.command_buffer.push(c0) + chars.drop_first() =~= m.command_buffer + chars);
    }
}

/// Law: whatever printable text is typed in Command mode, pressing Enter
/// either executes the parsed command or raises exactly the parser's
/// rejection for the submitted text; either way the buffer is empty
/// afterwards and Normal mode is restored.
pub proof fn lemma_submit_after_typing(
    m: StateModel,
    chars: Seq<char>,
    keys: Seq<KeyEvent>,
    enter: KeyEvent,
)
    requires
        m.mode is Command,
        keys.len() == chars.len(),
        forall|i: int| 0 <= i < keys.len() ==> keys[i].code == KeyCode::Char(chars[i]),
        enter.code == KeyCode::Enter,
    ensures
        ({
            let r = step_key(run_keys(m, keys), enter);
            let accepted = is_exit_text(submitted_text(m.command_buffer + chars));
            &&& r.mode is Normal
            &&& r.command_buffer == Seq::<char>::empty()
            &&& (accepted ==> r.exit_requested && r.error_text == m.error_text)
            &&& (!accepted ==> r.error_text == Some("invalid command"@) && r.exit_requested
                == m.exit_requested)
        }),
{
    lemma_typing_appends(m, chars, keys);
    let typed = run_keys(m, keys);
    assert(mode_map(typed.mode, enter) =~= seq![Event::SubmitCommand]);
    lemma_apply_events_one(typed, Event::SubmitCommand);
}

/// Law: backspacing the command buffer down to empty leaves Command mode for
/// Normal mode by itself, with no explicit Esc.
pub proof fn lemma_pop_to_empty_returns_to_normal(m: StateModel)
    requires
        m.mode is Command,
        m.command_buffer.len() <= 1,
    ensures
        spec_apply(m, Event::PopCommandBuffer).mode is Normal,
        spec_apply(m, Event::PopCommandBuffer).command_buffer == Seq::<char>::empty(),
{
    assert(spec_apply(m, Event::PopCommandBuffer).command_buffer =~= Seq::<char>::empty());
}

/// Law: an error raised by a failed submission is visible for exactly one
/// frame — the next iteration starts by clearing it, and only another
/// failed submission raises it again.
pub proof fn lemma_error_visible_one_frame(m: StateModel, e: Event)
    ensures
        ({
            let r = iteration(m, e);
            &&& (r.error_text is Some <==> (e is SubmitCommand && m.mode is Command
                && !is_exit_text(submitted_text(m.command_buffer))))
            &&& (r.error_text is Some ==> r.error_text == Some("invalid command"@))
        }),
{
}

/// The convention the pipeline keeps: while Command mode is active, the
/// buffer is never empty and begins with the ':' separator — so stripping
/// one leading colon at submission recovers exactly the typed command text.
pub open spec fn buffer_separator_invariant(m: StateModel) -> bool {
    m.mode is Command ==> m.command_buffer.len() > 0 && m.command_buffer[0] == ':'
}

/// Law: every key step preserves the separator convention.
pub proof fn lemma_step_key_preserves_separator(m: StateModel, key: KeyEvent)
    requires
        buffer_separator_invariant(m),
    ensures
        buffer_separator_invariant(step_key(m, key)),
{
    let evs = mode_map(m.mode, key);
    match m.mode {
        Mode::Normal => {
            match key.code {
                KeyCode::Char(c) => {
                    if c == ':' {
                        assert(evs =~= seq![
                            Event::UseMode(Mode::Command),
                            Event::AppendCommandBuffer(':'),
                        ]);
                        lemma_apply_events_two(
                            m,
                            Event::UseMode(Mode::Command),
                            Event::AppendCommandBuffer(':'),
                        );
                    } else if c == 'c' && key.ctrl {
                        assert(evs =~= seq![Event::Exit]);
                        lemma_apply_events_one(m, Event::Exit);
                    } else {
                        assert(evs =~= Seq::<Event>::empty());
                        assert(apply_events(m, Seq::<Event>::empty()) == m);
                    }
                },
                _ => {
                    assert(evs =~= Seq::<Event>::empty());
                    assert(apply_events(m, Seq::<Event>::empty()) == m);
                },
            }
        },
        Mode::Command => {
            match key.code {
                KeyCode::Esc => {
                    assert(evs =~= seq![Event::UseMode(Mode::Normal)]);
                    lemma_apply_events_one(m, Event::UseMode(Mode::Normal));
                },
                KeyCode::Enter => {
                    assert(evs =~= seq![Event::SubmitCommand]);
                    lemma_apply_events_one(m, Event::SubmitCommand);
                },
                KeyCode::Char(c) => {
                    assert(evs =~= seq![Event::AppendCommandBuffer(c)]);
                    lemma_apply_events_one(m, Event::AppendCommandBuffer(c));
                },
                KeyCode::Backspace => {
                    assert(evs =~= seq![Event::PopCommandBuffer]);
                    lemma_apply_events_one(m, Event::PopCommandBuffer);
                },
                KeyCode::Other => {
                    assert(evs =~= Seq::<Event>::empty());
                    assert(apply_events(m, Seq::<Event>::empty()) == m);
                },
            }
        },
    }
}

/// Law: the separator convention holds along every whole run of keys.
pub proof fn lemma_run_keys_preserves_separator(m: StateModel, keys: Seq<KeyEvent>)
    requires
        buffer_separator_invariant(m),
    ensures
        buffer_separator_invariant(run_keys(m, keys)),
    decreases keys.len(),
{
    if keys.len() > 0 {
        lemma_step_key_preserves_separator(m, keys[0]);
        lemma_run_keys_preserves_separator(step_key(m, keys[0]), keys.drop_first());
    }
}

/// Law: Ctrl-c in Normal mode requests exit at once, whatever the command
/// buffer or the rest of the state holds.
pub proof fn lemma_ctrl_c_requests_exit(m: StateModel, key: KeyEvent)
    requires
        m.mode is Normal,
        key.code == KeyCode::Char('c'),
        key.ctrl,
    ensures
        step_key(m, key).exit_requested,
        step_key(m, key).mode == m.mode,
        step_key(m, key).command_buffer == m.command_buffer,
{
    assert(mode_map(m.mode, key) =~= seq![Event::Exit]);
    lemma_apply_events_one(m, Event::Exit);
}

} // verus!
