//! Whole runs of the execution machine, and what holds of every one of them.

use vstd::prelude::*;
use crate::command::{validate_spec, Rejection};
use crate::event::{line_event_spec, rejection_event_spec, EventKind, StreamEventView};
use crate::execution::{step_spec, ExecActionView, ExecInputView, ExecState};
use crate::policy::{authorized_program, has_forbidden};
use crate::text::words;

verus! {

/// The state that the machine reaches from `state` on `inputs`.
pub open spec fn state_after(state: ExecState, inputs: Seq<ExecInputView>) -> ExecState
    decreases inputs.len(),
{
    if inputs.len() == 0 {
        state
    } else {
        state_after(step_spec(state, inputs[0]).state, inputs.drop_first())
    }
}

/// The events that the machine sends on its way from `state` through
/// `inputs`, in the order in which it sends them.
pub open spec fn events_of(state: ExecState, inputs: Seq<ExecInputView>) -> Seq<StreamEventView>
    decreases inputs.len(),
{
    if inputs.len() == 0 {
        Seq::empty()
    } else {
        let first = step_spec(state, inputs[0]);
        let later = events_of(first.state, inputs.drop_first());
        match first.event {
            Some(event) => seq![event] + later,
            None => later,
        }
    }
}

/// How often the machine asks for a launch on its way from `state` through
/// `inputs`.
pub open spec fn launches_of(state: ExecState, inputs: Seq<ExecInputView>) -> nat
    decreases inputs.len(),
{
    if inputs.len() == 0 {
        0
    } else {
        let first = step_spec(state, inputs[0]);
        let later = launches_of(first.state, inputs.drop_first());
        if first.action is Spawn {
            1 + later
        } else {
            later
        }
    }
}

/// Whether every event of `events` is a line of output.
pub open spec fn only_lines(events: Seq<StreamEventView>) -> bool {
    forall|i: int| 0 <= i < events.len() ==> (#[trigger] events[i]).kind == EventKind::Data
}

/// Whether `events` is a finished stream: lines of output, then one terminal
/// event, and nothing after it.
pub open spec fn ends_once(events: Seq<StreamEventView>) -> bool {
    &&& events.len() >= 1
    &&& events.last().kind.is_terminal()
    &&& only_lines(events.drop_last())
}

/// One step sends a terminal event exactly when it ends the execution, asks
/// for a launch only when it accepts a command line, never goes back to
/// validation, and does nothing at all once the execution is over.
pub proof fn lemma_step(state: ExecState, input: ExecInputView)
    ensures
        state.is_terminal() ==> step_spec(state, input) == state.stay(),
        state.is_terminal() ==> step_spec(state, input).action == ExecActionView::Finish,
        !state.is_terminal() ==> (step_spec(state, input).state.is_terminal() <==> (step_spec(
            state,
            input,
        ).event matches Some(event) && event.kind.is_terminal())),
        step_spec(state, input).action is Spawn ==> state == ExecState::Validating && step_spec(
            state,
            input,
        ).state == ExecState::Spawning,
        step_spec(state, input).state != ExecState::Validating || state == ExecState::Validating,
{
}

/// Once the execution is over, nothing more is sent or launched, whatever the
/// caller reports.
pub proof fn lemma_over_is_silent(state: ExecState, inputs: Seq<ExecInputView>)
    requires
        state.is_terminal(),
    ensures
        state_after(state, inputs) == state,
        events_of(state, inputs) == Seq::<StreamEventView>::empty(),
        launches_of(state, inputs) == 0,
    decreases inputs.len(),
{
    if inputs.len() > 0 {
        lemma_step(state, inputs[0]);
        lemma_over_is_silent(state, inputs.drop_first());
    }
}

/// Every stream ends at most once: while the execution goes on, only lines of
/// output have been sent; once it is over, exactly one terminal event has
/// been sent, and it is the last event of the stream.
pub proof fn lemma_one_terminal_event(state: ExecState, inputs: Seq<ExecInputView>)
    requires
        !state.is_terminal(),
    ensures
        state_after(state, inputs).is_terminal() ==> ends_once(events_of(state, inputs)),
        !state_after(state, inputs).is_terminal() ==> only_lines(events_of(state, inputs)),
    decreases inputs.len(),
{
    if inputs.len() > 0 {
        let first = step_spec(state, inputs[0]);
        let rest = inputs.drop_first();
        let later = events_of(first.state, rest);
        let all = events_of(state, inputs);
        lemma_step(state, inputs[0]);
        if first.state.is_terminal() {
            lemma_over_is_silent(first.state, rest);
        } else {
            lemma_one_terminal_event(first.state, rest);
            match first.event {
                Some(event) => {
                    if state_after(state, inputs).is_terminal() {
                        assert forall|i: int| 0 <= i < all.drop_last().len() implies (
                        #[trigger] all.drop_last()[i]).kind == EventKind::Data by {
                            if i > 0 {
                                assert(all.drop_last()[i] == later.drop_last()[i - 1]);
                            }
                        }
                    }
                },
                None => {},
            }
        }
    }
}

/// Whether `input` is a line from a channel that is open in `state`.
pub open spec fn is_open_line(state: ExecState, input: ExecInputView) -> bool {
    input matches ExecInputView::Line { channel, .. } && state.is_open(channel)
}

/// The event that carries the line `input`.
pub open spec fn event_of_line(input: ExecInputView) -> StreamEventView
    recommends
        input is Line,
{
    line_event_spec(input->text)
}

/// Lines are sent as they come: while lines arrive from open channels, each
/// is sent as it stands, one event for one line, in the order of arrival, and
/// the state does not change.
pub proof fn lemma_lines_sent_in_order(state: ExecState, inputs: Seq<ExecInputView>)
    requires
        forall|i: int| 0 <= i < inputs.len() ==> is_open_line(state, #[trigger] inputs[i]),
    ensures
        state_after(state, inputs) == state,
        events_of(state, inputs) == inputs.map_values(|input: ExecInputView| event_of_line(input)),
    decreases inputs.len(),
{
    if inputs.len() > 0 {
        let rest = inputs.drop_first();
        assert forall|i: int| 0 <= i < rest.len() implies is_open_line(state, #[trigger] rest[i]) by {}
        lemma_lines_sent_in_order(state, rest);
    }
}

/// Nothing is launched unless the machine starts with validation.
pub proof fn lemma_no_launch_after_validation(state: ExecState, inputs: Seq<ExecInputView>)
    requires
        state != ExecState::Validating,
    ensures
        launches_of(state, inputs) == 0,
    decreases inputs.len(),
{
    if inputs.len() > 0 {
        lemma_step(state, inputs[0]);
        lemma_no_launch_after_validation(step_spec(state, inputs[0]).state, inputs.drop_first());
    }
}

/// One execution launches at most one process.
pub proof fn lemma_at_most_one_launch(inputs: Seq<ExecInputView>)
    ensures
        launches_of(ExecState::Validating, inputs) <= 1,
    decreases inputs.len(),
{
    if inputs.len() > 0 {
        let first = step_spec(ExecState::Validating, inputs[0]);
        lemma_step(ExecState::Validating, inputs[0]);
        if first.state == ExecState::Validating {
            lemma_at_most_one_launch(inputs.drop_first());
        } else {
            lemma_no_launch_after_validation(first.state, inputs.drop_first());
        }
    }
}

/// A command line that validation turns down yields exactly one event, the
/// one for its rejection, and no launch, whatever the caller reports
/// afterwards.
pub proof fn lemma_rejected_run(cmd: Seq<char>, reason: Rejection, later: Seq<ExecInputView>)
    requires
        validate_spec(cmd) == Err::<Seq<Seq<char>>, Rejection>(reason),
    ensures
        state_after(ExecState::Validating, seq![ExecInputView::Submitted(cmd)] + later)
            == ExecState::Rejected,
        events_of(ExecState::Validating, seq![ExecInputView::Submitted(cmd)] + later)
            == seq![rejection_event_spec(reason)],
        launches_of(ExecState::Validating, seq![ExecInputView::Submitted(cmd)] + later) == 0,
{
    let inputs = seq![ExecInputView::Submitted(cmd)] + later;
    assert(inputs.drop_first() == later);
    lemma_over_is_silent(ExecState::Rejected, later);
}

/// A command line that validation accepts asks for exactly one launch, with
/// the argument vector that validation gave, and sends nothing before the
/// launch.
pub proof fn lemma_accepted_run(cmd: Seq<char>, args: Seq<Seq<char>>, later: Seq<ExecInputView>)
    requires
        validate_spec(cmd) == Ok::<Seq<Seq<char>>, Rejection>(args),
    ensures
        step_spec(ExecState::Validating, ExecInputView::Submitted(cmd)).action
            == ExecActionView::Spawn(args),
        step_spec(ExecState::Validating, ExecInputView::Submitted(cmd)).event.is_none(),
        launches_of(ExecState::Validating, seq![ExecInputView::Submitted(cmd)] + later) == 1,
{
    let inputs = seq![ExecInputView::Submitted(cmd)] + later;
    assert(inputs.drop_first() == later);
    lemma_no_launch_after_validation(ExecState::Spawning, later);
}

/// A command line that holds a forbidden character yields exactly one event,
/// the authorization failure, and no launch.
pub proof fn lemma_forbidden_character_run(cmd: Seq<char>, later: Seq<ExecInputView>)
    requires
        has_forbidden(cmd),
    ensures
        events_of(ExecState::Validating, seq![ExecInputView::Submitted(cmd)] + later)
            == seq![rejection_event_spec(Rejection::UnauthorizedCommand)],
        launches_of(ExecState::Validating, seq![ExecInputView::Submitted(cmd)] + later) == 0,
{
    lemma_rejected_run(cmd, Rejection::UnauthorizedCommand, later);
}

/// A command line whose first word is not the authorized program yields the
/// very event that a forbidden character yields, and no launch.
pub proof fn lemma_other_program_run(cmd: Seq<char>, later: Seq<ExecInputView>)
    requires
        words(cmd).len() > 0,
        words(cmd)[0] != authorized_program(),
    ensures
        events_of(ExecState::Validating, seq![ExecInputView::Submitted(cmd)] + later)
            == seq![rejection_event_spec(Rejection::UnauthorizedCommand)],
        launches_of(ExecState::Validating, seq![ExecInputView::Submitted(cmd)] + later) == 0,
{
    lemma_rejected_run(cmd, Rejection::UnauthorizedCommand, later);
}

/// An execution that has run to its end has sent exactly one terminal event,
/// as the last event of its stream.
pub proof fn lemma_finished_stream_ends_once(inputs: Seq<ExecInputView>)
    requires
        state_after(ExecState::Validating, inputs).is_terminal(),
    ensures
        ends_once(events_of(ExecState::Validating, inputs)),
{
    lemma_one_terminal_event(ExecState::Validating, inputs);
}

} // verus!
