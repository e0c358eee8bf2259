//! What holds of every run of the shell loop, stated over the steps that
//! `next` describes and proved from them.
use vstd::prelude::*;
use crate::input_handler::{InputState, input_state_of, is_space, tokens_of};
use crate::process_slot::{InterruptAction, interrupt_action, interrupt_text};
use crate::shell_core::{
    Event,
    Phase,
    RequestView,
    ShellState,
    SlotChange,
    accepts,
    help_text,
    logout_text,
    names_exit,
    names_help,
    next,
    spawn_failure_text,
    state_of,
    wait_failure_text,
};
use crate::utils::prompt_text;

verus! {

/// The phase after a run of events, from the start.
pub open spec fn phase_after(events: Seq<Event>) -> Phase
    decreases events.len(),
{
    if events.len() == 0 {
        Phase::Idle
    } else {
        next(phase_after(events.drop_last()), events.last()).phase
    }
}

/// Whether the process slot holds a child after a run of events, from the
/// empty slot at the start.
pub open spec fn slot_filled_after(events: Seq<Event>) -> bool
    decreases events.len(),
{
    if events.len() == 0 {
        false
    } else {
        match next(phase_after(events.drop_last()), events.last()).slot {
            SlotChange::Keep => slot_filled_after(events.drop_last()),
            SlotChange::Fill => true,
            SlotChange::Clear => false,
        }
    }
}

/// Whether the loop takes each event of the run in the phase it meets.
pub open spec fn valid_run(events: Seq<Event>) -> bool {
    forall|i: int| 0 <= i < events.len() ==> #[trigger] accepts(phase_after(events.take(i)), events[i])
}

/// What the loop writes on the event at `i` of a run.
pub open spec fn output_at(events: Seq<Event>, i: int) -> Seq<char> {
    next(phase_after(events.take(i)), events[i]).output
}

proof fn lemma_valid_prefix(events: Seq<Event>)
    requires
        valid_run(events),
        events.len() > 0,
    ensures
        valid_run(events.drop_last()),
        accepts(phase_after(events.drop_last()), events.last()),
{
    let prefix = events.drop_last();
    assert forall|i: int| 0 <= i < prefix.len() implies #[trigger] accepts(
        phase_after(prefix.take(i)),
        prefix[i],
    ) by {
        assert(prefix.take(i) == events.take(i));
        assert(accepts(phase_after(events.take(i)), events[i]));
    }
    assert(events.take(events.len() - 1) == prefix);
    assert(accepts(phase_after(events.take(events.len() - 1)), events[events.len() - 1]));
}

proof fn lemma_whitespace_has_no_tokens(s: Seq<char>)
    requires
        forall|i: int| 0 <= i < s.len() ==> is_space(#[trigger] s[i]),
    ensures
        tokens_of(s).len() == 0,
    decreases s.len(),
{
    if s.len() > 0 {
        lemma_whitespace_has_no_tokens(s.drop_last());
    }
}

proof fn lemma_trailing_space_ignored(s: Seq<char>, pad: Seq<char>)
    requires
        forall|i: int| 0 <= i < pad.len() ==> is_space(#[trigger] pad[i]),
    ensures
        tokens_of(s + pad) == tokens_of(s),
    decreases pad.len(),
{
    if pad.len() > 0 {
        let shorter = pad.drop_last();
        assert((s + pad).drop_last() == s + shorter);
        assert((s + pad).last() == pad.last());
        assert(is_space(pad[pad.len() - 1]));
        lemma_trailing_space_ignored(s, shorter);
    } else {
        assert(s + pad == s);
    }
}

proof fn lemma_leading_space_ignored(pad: Seq<char>, s: Seq<char>)
    requires
        forall|i: int| 0 <= i < pad.len() ==> is_space(#[trigger] pad[i]),
    ensures
        tokens_of(pad + s) == tokens_of(s),
    decreases s.len(),
{
    if s.len() == 0 {
        assert(pad + s == pad);
        lemma_whitespace_has_no_tokens(pad);
    } else {
        let init = s.drop_last();
        assert((pad + s).drop_last() == pad + init);
        assert((pad + s).last() == s.last());
        lemma_leading_space_ignored(pad, init);
        if init.len() > 0 {
            assert((pad + init).last() == init.last());
        } else if pad.len() > 0 {
            assert(pad + init == pad);
            assert(is_space(pad[pad.len() - 1]));
        } else {
            assert(pad + init == init);
        }
    }
}

/// Whitespace around a line changes none of its tokens: `exit`, `help` or
/// a program name with spaces or tabs around it is read the same.
pub proof fn lemma_surrounding_whitespace_is_ignored(before: Seq<char>, line: Seq<char>, after: Seq<char>)
    requires
        forall|i: int| 0 <= i < before.len() ==> is_space(#[trigger] before[i]),
        forall|i: int| 0 <= i < after.len() ==> is_space(#[trigger] after[i]),
    ensures
        tokens_of(before + line + after) == tokens_of(line),
{
    lemma_trailing_space_ignored(before + line, after);
    lemma_leading_space_ignored(before, line);
}

/// In every run that the loop accepts, the process slot holds a child
/// exactly while the loop waits for one: it is empty at the start, at the
/// end, and whenever no command runs.
pub proof fn lemma_slot_filled_iff_waiting(events: Seq<Event>)
    requires
        valid_run(events),
    ensures
        slot_filled_after(events) == (phase_after(events) == Phase::Waiting),
    decreases events.len(),
{
    if events.len() > 0 {
        lemma_valid_prefix(events);
        lemma_slot_filled_iff_waiting(events.drop_last());
        let e = events.last();
        match e {
            Event::Line(read) => {
                match input_state_of(read) {
                    InputState::Valid => {},
                    _ => {},
                }
            },
            _ => {},
        }
    }
}

/// A child is only ever put into an empty slot: in a run that the loop
/// accepts, the slot is empty at each start of a program.
pub proof fn lemma_one_child_at_a_time(events: Seq<Event>, i: int)
    requires
        valid_run(events),
        0 <= i < events.len(),
        events[i] is Spawned,
    ensures
        !slot_filled_after(events.take(i)),
{
    assert forall|j: int| 0 <= j < events.take(i).len() implies #[trigger] accepts(
        phase_after(events.take(i).take(j)),
        events.take(i)[j],
    ) by {
        assert(events.take(i).take(j) == events.take(j));
        assert(accepts(phase_after(events.take(j)), events[j]));
    }
    assert(accepts(phase_after(events.take(i)), events[i]));
    lemma_slot_filled_iff_waiting(events.take(i));
}

/// A line that holds only whitespace is blank: nothing is dispatched, the
/// prompt is written again and another line is read.
pub proof fn lemma_blank_line_prompts_again(line: Seq<char>)
    requires
        line.len() > 0,
        forall|i: int| 0 <= i < line.len() ==> is_space(#[trigger] line[i]),
    ensures
        input_state_of(Some(line)) == InputState::Empty,
        next(Phase::Reading, Event::Line(Some(line))).phase == Phase::Reading,
        next(Phase::Reading, Event::Line(Some(line))).output == prompt_text(),
        next(Phase::Reading, Event::Line(Some(line))).request == RequestView::ReadLine,
        next(Phase::Reading, Event::Line(Some(line))).slot == SlotChange::Keep,
{
    lemma_whitespace_has_no_tokens(line);
    assert(Seq::<char>::empty() + prompt_text() == prompt_text());
}

/// A line whose first token is `exit`, whatever surrounds it or follows it,
/// ends the shell at once, writing nothing and leaving the slot alone.
pub proof fn lemma_exit_ends_the_shell(line: Seq<char>)
    requires
        tokens_of(line).len() > 0,
        names_exit(tokens_of(line)),
    ensures
        input_state_of(Some(line)) == InputState::Valid,
        next(Phase::Reading, Event::Line(Some(line))).phase == Phase::Finished,
        state_of(next(Phase::Reading, Event::Line(Some(line))).phase) == ShellState::Exiting,
        next(Phase::Reading, Event::Line(Some(line))).output.len() == 0,
        next(Phase::Reading, Event::Line(Some(line))).request == RequestView::Stop,
        next(Phase::Reading, Event::Line(Some(line))).slot == SlotChange::Keep,
{
    reveal_strlit("help");
    reveal_strlit("exit");
    assert("help"@[0] != "exit"@[0]);
}

/// A line whose first token is `help` writes the usage text, exactly, then
/// the prompt; the shell keeps running and the slot is left alone.
pub proof fn lemma_help_writes_usage(line: Seq<char>)
    requires
        tokens_of(line).len() > 0,
        names_help(tokens_of(line)),
    ensures
        input_state_of(Some(line)) == InputState::Valid,
        next(Phase::Reading, Event::Line(Some(line))).output == help_text() + prompt_text(),
        next(Phase::Reading, Event::Line(Some(line))).phase == Phase::Reading,
        state_of(next(Phase::Reading, Event::Line(Some(line))).phase) == ShellState::Running,
        next(Phase::Reading, Event::Line(Some(line))).slot == SlotChange::Keep,
{
}

/// Any other line starts its first token as a program with the rest as its
/// arguments; once the child has been started and has exited, the slot is
/// empty again and the shell runs on at the prompt.
pub proof fn lemma_external_command_runs_to_completion(events: Seq<Event>, line: Seq<char>)
    requires
        valid_run(events),
        phase_after(events) == Phase::Reading,
        tokens_of(line).len() > 0,
        !names_help(tokens_of(line)),
        !names_exit(tokens_of(line)),
    ensures
        next(Phase::Reading, Event::Line(Some(line))).request == RequestView::Spawn(
            tokens_of(line)[0],
            tokens_of(line).drop_first(),
        ),
        valid_run(events.push(Event::Line(Some(line))).push(Event::Spawned).push(Event::Exited(None))),
        !slot_filled_after(events.push(Event::Line(Some(line))).push(Event::Spawned).push(Event::Exited(None))),
        state_of(phase_after(events.push(Event::Line(Some(line))).push(Event::Spawned).push(Event::Exited(None)))) == ShellState::Running,
        output_at(events.push(Event::Line(Some(line))).push(Event::Spawned).push(Event::Exited(None)), events.len() + 2int) == prompt_text(),
{
    let e1 = events.push(Event::Line(Some(line)));
    let e2 = e1.push(Event::Spawned);
    let e3 = e2.push(Event::Exited(None));
    assert(e1.drop_last() == events);
    assert(e2.drop_last() == e1);
    assert(e3.drop_last() == e2);
    assert(phase_after(e1) == Phase::Spawning);
    assert(phase_after(e2) == Phase::Waiting);
    assert forall|i: int| 0 <= i < e3.len() implies #[trigger] accepts(phase_after(e3.take(i)), e3[i]) by {
        if i < events.len() {
            assert(e3.take(i) == events.take(i));
            assert(accepts(phase_after(events.take(i)), events[i]));
        } else if i == events.len() {
            assert(e3.take(i) == events);
        } else if i == events.len() + 1 {
            assert(e3.take(i) == e1);
        } else {
            assert(e3.take(i) == e2);
        }
    }
    assert(e3.take(events.len() + 2int) == e2);
    assert(Seq::<char>::empty() + prompt_text() == prompt_text());
}

/// A program that cannot be started is reported with the reason, and the
/// shell prompts again, running on; the slot is left empty.
pub proof fn lemma_spawn_failure_is_reported(detail: Seq<char>)
    ensures
        next(Phase::Spawning, Event::SpawnFailed(detail)).output == spawn_failure_text(detail)
            + prompt_text(),
        next(Phase::Spawning, Event::SpawnFailed(detail)).output.subrange(27, 27 + detail.len() as int)
            == detail,
        next(Phase::Spawning, Event::SpawnFailed(detail)).phase == Phase::Reading,
        next(Phase::Spawning, Event::SpawnFailed(detail)).slot == SlotChange::Keep,
{
    reveal_strlit("Failed to execute command");
    reveal_strlit(": ");
    let out = next(Phase::Spawning, Event::SpawnFailed(detail)).output;
    assert(out.subrange(27, 27 + detail.len() as int) =~= detail);
}

/// An interrupt while a command runs finds the child in the slot and asks
/// it to terminate; when the wait then ends, the slot is empty and the
/// shell prompts again.
pub proof fn lemma_interrupt_terminates_the_child(events: Seq<Event>)
    requires
        valid_run(events),
        phase_after(events) == Phase::Waiting,
    ensures
        slot_filled_after(events),
        interrupt_action(slot_filled_after(events)) == InterruptAction::Terminate,
        valid_run(events.push(Event::Exited(None))),
        !slot_filled_after(events.push(Event::Exited(None))),
        phase_after(events.push(Event::Exited(None))) == Phase::Reading,
{
    lemma_slot_filled_iff_waiting(events);
    let after = events.push(Event::Exited(None));
    assert(after.drop_last() == events);
    assert forall|i: int| 0 <= i < after.len() implies #[trigger] accepts(phase_after(after.take(i)), after[i]) by {
        if i < events.len() {
            assert(after.take(i) == events.take(i));
            assert(accepts(phase_after(events.take(i)), events[i]));
        } else {
            assert(after.take(i) == events);
        }
    }
}

/// An interrupt while no command runs finds the slot empty: the listener
/// only restores the prompt, which is no error, and terminates nothing.
pub proof fn lemma_interrupt_without_child_is_harmless(events: Seq<Event>)
    requires
        valid_run(events),
        phase_after(events) != Phase::Waiting,
    ensures
        !slot_filled_after(events),
        interrupt_action(slot_filled_after(events)) == InterruptAction::Reprompt,
        interrupt_text(interrupt_action(slot_filled_after(events))) == "\n"@ + prompt_text(),
{
    lemma_slot_filled_iff_waiting(events);
    reveal_strlit("\n-> ");
    reveal_strlit("\n");
    reveal_strlit("-> ");
    assert(interrupt_text(InterruptAction::Reprompt) =~= "\n"@ + prompt_text());
}

proof fn lemma_logout_only_when_finishing(phase: Phase, event: Event)
    requires
        accepts(phase, event),
        next(phase, event).output == logout_text(),
    ensures
        next(phase, event).phase == Phase::Finished,
{
    reveal_strlit("CTRL-D detected. Logging you out...\n");
    reveal_strlit("-> ");
    reveal_strlit("\n                            This is a simple shell.\n                            Available commands:\n                            help - Show this help message\n                            exit - Exit the shell\n                        ");
    reveal_strlit("Failed to execute command");
    reveal_strlit("Failed to wait for child process");
    reveal_strlit("help");
    reveal_strlit("exit");
    let out = next(phase, event).output;
    assert(logout_text().len() == 36);
    assert(logout_text()[0] == 'C');
    match event {
        Event::Line(read) => {
            if input_state_of(read) == InputState::Valid {
                let tokens = tokens_of(read->0);
                if names_help(tokens) {
                    assert(out[0] == help_text()[0]);
                }
            }
        },
        Event::SpawnFailed(detail) => {
            assert(out[0] == 'F');
        },
        Event::Exited(failure) => {
            match failure {
                Some(detail) => {
                    assert(out[0] == 'F');
                },
                None => {},
            }
        },
        _ => {},
    }
}

/// The end of the input, after any number of commands, logs the user out:
/// the logout message is written on that step and on no earlier one, and
/// the shell ends.
pub proof fn lemma_end_of_input_logs_out_once(events: Seq<Event>)
    requires
        valid_run(events),
        events.len() > 0,
        events.last() matches Event::Line(read) && input_state_of(read) == InputState::Exiting,
    ensures
        phase_after(events) == Phase::Finished,
        state_of(phase_after(events)) == ShellState::Exiting,
        output_at(events, events.len() - 1) == logout_text(),
        forall|i: int| 0 <= i < events.len() - 1 ==> #[trigger] output_at(events, i) != logout_text(),
{
    assert(events.take(events.len() - 1) == events.drop_last());
    assert forall|i: int| 0 <= i < events.len() - 1 implies #[trigger] output_at(events, i) != logout_text() by {
        assert(accepts(phase_after(events.take(i)), events[i]));
        assert(accepts(phase_after(events.take(i + 1)), events[i + 1]));
        assert(events.take(i + 1).drop_last() == events.take(i));
        if output_at(events, i) == logout_text() {
            lemma_logout_only_when_finishing(phase_after(events.take(i)), events[i]);
        }
    }
}

} // verus!
