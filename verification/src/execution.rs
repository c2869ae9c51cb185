//! The life of one command execution, as a state machine.
//!
//! The machine decides; the caller acts. The caller reports what happened as
//! an `ExecInput` and gets back the next state, the event to send to the
//! client, if any, and what to do next. A command line is validated before
//! anything is launched, and every stream ends with exactly one terminal
//! event.

use vstd::prelude::*;
use crate::command::{validate, validate_spec};
use crate::event::{
    finished_event_spec,
    line_event_spec,
    rejection_event_spec,
    spawn_failure_event_spec,
    wait_failure_event_spec,
    StreamEvent,
    StreamEventView,
};

verus! {

/// One of the two output channels of a process.
#[derive(Structural, PartialEq, Eq, Clone, Copy, Debug)]
pub enum Channel {
    Stdout,
    Stderr,
}

/// Where a command execution stands.
#[derive(Structural, PartialEq, Eq, Clone, Copy, Debug)]
pub enum ExecState {
    /// The command line has not been looked at yet.
    Validating,
    /// The command line was accepted and the process is being launched.
    Spawning,
    /// The process runs. Each flag tells whether that channel may still
    /// deliver lines.
    Streaming { stdout_open: bool, stderr_open: bool },
    /// The command line was turned down.
    Rejected,
    /// The process could not be launched.
    SpawnFailed,
    /// The process has exited.
    Completed,
    /// The exit of the process could not be had.
    WaitFailed,
}

/// What the caller reports to the machine.
#[derive(PartialEq, Eq, Clone, Debug)]
pub enum ExecInput {
    /// A command line was submitted.
    Submitted(String),
    /// The process was launched.
    Spawned,
    /// The launch of `program` failed for `reason`.
    SpawnFailed { program: String, reason: String },
    /// A channel delivered a complete line.
    Line { channel: Channel, text: String },
    /// A channel is exhausted.
    Closed(Channel),
    /// The process has exited, with its exit code where it left one.
    Exited(Option<i32>),
    /// Waiting for the exit failed.
    WaitFailed(String),
}

/// An `ExecInput` as a mathematical value.
pub ghost enum ExecInputView {
    Submitted(Seq<char>),
    Spawned,
    SpawnFailed { program: Seq<char>, reason: Seq<char> },
    Line { channel: Channel, text: Seq<char> },
    Closed(Channel),
    Exited(Option<i32>),
    WaitFailed(Seq<char>),
}

impl View for ExecInput {
    type V = ExecInputView;

    open spec fn view(&self) -> ExecInputView {
        match self {
            ExecInput::Submitted(cmd) => ExecInputView::Submitted(cmd@),
            ExecInput::Spawned => ExecInputView::Spawned,
            ExecInput::SpawnFailed { program, reason } => ExecInputView::SpawnFailed {
                program: program@,
                reason: reason@,
            },
            ExecInput::Line { channel, text } => ExecInputView::Line {
                channel: *channel,
                text: text@,
            },
            ExecInput::Closed(channel) => ExecInputView::Closed(*channel),
            ExecInput::Exited(code) => ExecInputView::Exited(*code),
            ExecInput::WaitFailed(reason) => ExecInputView::WaitFailed(reason@),
        }
    }
}

/// What the caller is to do next.
#[derive(PartialEq, Eq, Clone, Debug)]
pub enum ExecAction {
    /// Launch the authorized program with this argument vector, each argument
    /// passed as it stands, and capture both channels.
    Spawn(Vec<String>),
    /// Go on and report what happens next.
    Poll,
    /// Both channels are exhausted: wait for the process to exit.
    AwaitExit,
    /// End the stream.
    Finish,
}

/// An `ExecAction` as a mathematical value.
pub ghost enum ExecActionView {
    Spawn(Seq<Seq<char>>),
    Poll,
    AwaitExit,
    Finish,
}

impl View for ExecAction {
    type V = ExecActionView;

    open spec fn view(&self) -> ExecActionView {
        match self {
            ExecAction::Spawn(args) => ExecActionView::Spawn(args.deep_view()),
            ExecAction::Poll => ExecActionView::Poll,
            ExecAction::AwaitExit => ExecActionView::AwaitExit,
            ExecAction::Finish => ExecActionView::Finish,
        }
    }
}

/// The outcome of one step of the machine.
#[derive(PartialEq, Eq, Clone, Debug)]
pub struct ExecStep {
    /// The state after the step.
    pub state: ExecState,
    /// The event to send to the client.
    pub event: Option<StreamEvent>,
    /// What the caller is to do next.
    pub action: ExecAction,
}

/// An `ExecStep` as a mathematical value.
pub ghost struct ExecStepView {
    pub state: ExecState,
    pub event: Option<StreamEventView>,
    pub action: ExecActionView,
}

impl View for ExecStep {
    type V = ExecStepView;

    open spec fn view(&self) -> ExecStepView {
        ExecStepView {
            state: self.state,
            event: match self.event {
                Some(event) => Some(event@),
                None => None,
            },
            action: self.action@,
        }
    }
}

impl ExecState {
    /// The state of an execution that has just begun.
    pub fn new() -> (state: ExecState)
        ensures
            state == ExecState::Validating,
    {
        ExecState::Validating
    }

    /// Whether the execution is over.
    pub open spec fn is_terminal(self) -> bool {
        match self {
            ExecState::Rejected => true,
            ExecState::SpawnFailed => true,
            ExecState::Completed => true,
            ExecState::WaitFailed => true,
            _ => false,
        }
    }

    /// Decides whether the execution is over.
    pub fn is_over(self) -> (r: bool)
        ensures
            r == self.is_terminal(),
    {
        match self {
            ExecState::Rejected => true,
            ExecState::SpawnFailed => true,
            ExecState::Completed => true,
            ExecState::WaitFailed => true,
            _ => false,
        }
    }

    /// Whether `channel` may still deliver lines.
    pub open spec fn is_open(self, channel: Channel) -> bool {
        match self {
            ExecState::Streaming { stdout_open, stderr_open } => match channel {
                Channel::Stdout => stdout_open,
                Channel::Stderr => stderr_open,
            },
            _ => false,
        }
    }

    /// The state once `channel` is exhausted.
    pub open spec fn close(self, channel: Channel) -> ExecState {
        match self {
            ExecState::Streaming { stdout_open, stderr_open } => match channel {
                Channel::Stdout => ExecState::Streaming { stdout_open: false, stderr_open },
                Channel::Stderr => ExecState::Streaming { stdout_open, stderr_open: false },
            },
            _ => self,
        }
    }

    /// What the caller is to do while the machine rests in this state.
    pub open spec fn standing_action(self) -> ExecActionView {
        match self {
            ExecState::Validating => ExecActionView::Poll,
            ExecState::Spawning => ExecActionView::Poll,
            ExecState::Streaming { stdout_open, stderr_open } => if stdout_open || stderr_open {
                ExecActionView::Poll
            } else {
                ExecActionView::AwaitExit
            },
            _ => ExecActionView::Finish,
        }
    }

    /// The step that leaves everything as it is.
    pub open spec fn stay(self) -> ExecStepView {
        ExecStepView { state: self, event: None, action: self.standing_action() }
    }
}

/// The step that the machine takes in `state` on `input`.
///
/// An input that the state does not expect changes nothing and sends nothing.
pub open spec fn step_spec(state: ExecState, input: ExecInputView) -> ExecStepView {
    match state {
        ExecState::Validating => match input {
            ExecInputView::Submitted(cmd) => match validate_spec(cmd) {
                Ok(args) => ExecStepView {
                    state: ExecState::Spawning,
                    event: None,
                    action: ExecActionView::Spawn(args),
                },
                Err(reason) => ExecStepView {
                    state: ExecState::Rejected,
                    event: Some(rejection_event_spec(reason)),
                    action: ExecActionView::Finish,
                },
            },
            _ => state.stay(),
        },
        ExecState::Spawning => match input {
            ExecInputView::Spawned => ExecStepView {
                state: ExecState::Streaming { stdout_open: true, stderr_open: true },
                event: None,
                action: ExecActionView::Poll,
            },
            ExecInputView::SpawnFailed { program, reason } => ExecStepView {
                state: ExecState::SpawnFailed,
                event: Some(spawn_failure_event_spec(program, reason)),
                action: ExecActionView::Finish,
            },
            _ => state.stay(),
        },
        ExecState::Streaming { stdout_open, stderr_open } => match input {
            ExecInputView::Line { channel, text } => if state.is_open(channel) {
                ExecStepView {
                    state,
                    event: Some(line_event_spec(text)),
                    action: ExecActionView::Poll,
                }
            } else {
                state.stay()
            },
            ExecInputView::Closed(channel) => state.close(channel).stay(),
            ExecInputView::Exited(code) => if !stdout_open && !stderr_open {
                ExecStepView {
                    state: ExecState::Completed,
                    event: Some(finished_event_spec(code)),
                    action: ExecActionView::Finish,
                }
            } else {
                state.stay()
            },
            ExecInputView::WaitFailed(reason) => if !stdout_open && !stderr_open {
                ExecStepView {
                    state: ExecState::WaitFailed,
                    event: Some(wait_failure_event_spec(reason)),
                    action: ExecActionView::Finish,
                }
            } else {
                state.stay()
            },
            _ => state.stay(),
        },
        _ => state.stay(),
    }
}

/// The step that leaves everything as it is.
fn stay(state: ExecState) -> (step: ExecStep)
    ensures
        step@ == state.stay(),
{
    let action = match state {
        ExecState::Validating => ExecAction::Poll,
        ExecState::Spawning => ExecAction::Poll,
        ExecState::Streaming { stdout_open, stderr_open } => if stdout_open || stderr_open {
            ExecAction::Poll
        } else {
            ExecAction::AwaitExit
        },
        _ => ExecAction::Finish,
    };
    ExecStep { state, event: None, action }
}

/// Takes one step: in `state`, the caller reports `input`.
pub fn step(state: ExecState, input: ExecInput) -> (taken: ExecStep)
    ensures
        taken@ == step_spec(state, input@),
{
    match state {
        ExecState::Validating => match input {
            ExecInput::Submitted(cmd) => match validate(cmd.as_str()) {
                Ok(args) => ExecStep {
                    state: ExecState::Spawning,
                    event: None,
                    action: ExecAction::Spawn(args),
                },
                Err(reason) => ExecStep {
                    state: ExecState::Rejected,
                    event: Some(StreamEvent::rejection(reason)),
                    action: ExecAction::Finish,
                },
            },
            _ => stay(state),
        },
        ExecState::Spawning => match input {
            ExecInput::Spawned => ExecStep {
                state: ExecState::Streaming { stdout_open: true, stderr_open: true },
                event: None,
                action: ExecAction::Poll,
            },
            ExecInput::SpawnFailed { program, reason } => ExecStep {
                state: ExecState::SpawnFailed,
                event: Some(StreamEvent::spawn_failure(program.as_str(), reason.as_str())),
                action: ExecAction::Finish,
            },
            _ => stay(state),
        },
        ExecState::Streaming { stdout_open, stderr_open } => match input {
            ExecInput::Line { channel, text } => {
                let open = match channel {
                    Channel::Stdout => stdout_open,
                    Channel::Stderr => stderr_open,
                };
                if open {
                    ExecStep {
                        state,
                        event: Some(StreamEvent::line(text)),
                        action: ExecAction::Poll,
                    }
                } else {
                    stay(state)
                }
            },
            ExecInput::Closed(channel) => match channel {
                Channel::Stdout => stay(ExecState::Streaming { stdout_open: false, stderr_open }),
                Channel::Stderr => stay(ExecState::Streaming { stdout_open, stderr_open: false }),
            },
            ExecInput::Exited(code) => if !stdout_open && !stderr_open {
                ExecStep {
                    state: ExecState::Completed,
                    event: Some(StreamEvent::finished(code)),
                    action: ExecAction::Finish,
                }
            } else {
                stay(state)
            },
            ExecInput::WaitFailed(reason) => if !stdout_open && !stderr_open {
                ExecStep {
                    state: ExecState::WaitFailed,
                    event: Some(StreamEvent::wait_failure(reason.as_str())),
                    action: ExecAction::Finish,
                }
            } else {
                stay(state)
            },
            _ => stay(state),
        },
        _ => stay(state),
    }
}

} // verus!
