//! The events of a command stream and the text they carry.

use vstd::prelude::*;
use crate::command::Rejection;
use crate::decimal::{decimal, push_decimal_i32};

verus! {

/// The opaque payload of every authorization failure.
pub const UNAUTHORIZED_MESSAGE: &'static str = "[unauthorized]";

/// The payload that reports a command line without words.
pub const EMPTY_COMMAND_MESSAGE: &'static str = "Empty command received.";

/// What an event of the stream stands for.
#[derive(Structural, PartialEq, Eq, Clone, Copy, Debug)]
pub enum EventKind {
    /// One line of output. Sent as an event without a name.
    Data,
    /// A failure. Ends the stream.
    Error,
    /// The process has exited. Ends the stream.
    Done,
}

/// One event of a command stream.
#[derive(PartialEq, Eq, Clone, Debug)]
pub struct StreamEvent {
    pub kind: EventKind,
    pub payload: String,
}

/// A `StreamEvent` as a mathematical value.
pub ghost struct StreamEventView {
    pub kind: EventKind,
    pub payload: Seq<char>,
}

impl View for StreamEvent {
    type V = StreamEventView;

    open spec fn view(&self) -> StreamEventView {
        StreamEventView { kind: self.kind, payload: self.payload@ }
    }
}

impl EventKind {
    /// Whether an event of this kind ends the stream.
    pub open spec fn is_terminal(self) -> bool {
        self != EventKind::Data
    }

    /// Decides whether an event of this kind ends the stream.
    pub fn ends_stream(self) -> (r: bool)
        ensures
            r == self.is_terminal(),
    {
        match self {
            EventKind::Data => false,
            EventKind::Error => true,
            EventKind::Done => true,
        }
    }

    /// The name under which an event of this kind is sent; a line of output
    /// is sent without one.
    pub open spec fn name_spec(self) -> Option<Seq<char>> {
        match self {
            EventKind::Data => None,
            EventKind::Error => Some("error"@),
            EventKind::Done => Some("done"@),
        }
    }

    /// The name under which an event of this kind is sent.
    pub fn name(self) -> (name: Option<&'static str>)
        ensures
            match name {
                Some(text) => self.name_spec() == Some(text@),
                None => self.name_spec().is_none(),
            },
    {
        match self {
            EventKind::Data => None,
            EventKind::Error => Some("error"),
            EventKind::Done => Some("done"),
        }
    }
}

/// The text of an exit code: `Some(` the code in decimal `)`, or `None` where
/// the process left no code.
pub open spec fn exit_code_text(code: Option<i32>) -> Seq<char> {
    match code {
        Some(n) => "Some("@ + decimal(n as int) + ")"@,
        None => "None"@,
    }
}

/// The payload of each rejection.
pub open spec fn rejection_message(reason: Rejection) -> Seq<char> {
    match reason {
        Rejection::UnauthorizedCommand => UNAUTHORIZED_MESSAGE@,
        Rejection::EmptyCommand => EMPTY_COMMAND_MESSAGE@,
    }
}

/// The payload that reports the end of the process.
pub open spec fn finished_message(code: Option<i32>) -> Seq<char> {
    "[COMMAND_FINISHED code="@ + exit_code_text(code) + "]"@
}

/// The payload that reports that `program` could not be launched.
pub open spec fn spawn_failure_message(program: Seq<char>, reason: Seq<char>) -> Seq<char> {
    "[ERROR: Failed to spawn command '"@ + program + "'. Error: "@ + reason + "]"@
}

/// The payload that reports that the exit of the process could not be had.
pub open spec fn wait_failure_message(reason: Seq<char>) -> Seq<char> {
    "[ERROR: Failed to wait for command. Error: "@ + reason + "]"@
}

/// The event for one line of output.
pub open spec fn line_event_spec(text: Seq<char>) -> StreamEventView {
    StreamEventView { kind: EventKind::Data, payload: text }
}

/// The event for a command line that was turned down.
pub open spec fn rejection_event_spec(reason: Rejection) -> StreamEventView {
    StreamEventView { kind: EventKind::Error, payload: rejection_message(reason) }
}

/// The event for a process that could not be launched.
pub open spec fn spawn_failure_event_spec(
    program: Seq<char>,
    reason: Seq<char>,
) -> StreamEventView {
    StreamEventView { kind: EventKind::Error, payload: spawn_failure_message(program, reason) }
}

/// The event for a process whose exit could not be had.
pub open spec fn wait_failure_event_spec(reason: Seq<char>) -> StreamEventView {
    StreamEventView { kind: EventKind::Error, payload: wait_failure_message(reason) }
}

/// The event for a process that has exited.
pub open spec fn finished_event_spec(code: Option<i32>) -> StreamEventView {
    StreamEventView { kind: EventKind::Done, payload: finished_message(code) }
}

impl StreamEvent {
    /// The event for the line `text` of output.
    pub fn line(text: String) -> (event: StreamEvent)
        ensures
            event@ == line_event_spec(text@),
    {
        StreamEvent { kind: EventKind::Data, payload: text }
    }

    /// The event for a command line that was turned down for `reason`.
    pub fn rejection(reason: Rejection) -> (event: StreamEvent)
        ensures
            event@ == rejection_event_spec(reason),
    {
        let payload = match reason {
            Rejection::UnauthorizedCommand => String::from_str(UNAUTHORIZED_MESSAGE),
            Rejection::EmptyCommand => String::from_str(EMPTY_COMMAND_MESSAGE),
        };
        StreamEvent { kind: EventKind::Error, payload }
    }

    /// The event that reports that `program` could not be launched, with the
    /// launcher's own words in `reason`.
    pub fn spawn_failure(program: &str, reason: &str) -> (event: StreamEvent)
        ensures
            event@ == spawn_failure_event_spec(program@, reason@),
    {
        let mut payload = String::from_str("[ERROR: Failed to spawn command '");
        payload.append(program);
        payload.append("'. Error: ");
        payload.append(reason);
        payload.append("]");
        StreamEvent { kind: EventKind::Error, payload }
    }

    /// The event that reports that the exit of the process could not be had,
    /// with the system's own words in `reason`.
    pub fn wait_failure(reason: &str) -> (event: StreamEvent)
        ensures
            event@ == wait_failure_event_spec(reason@),
    {
        let mut payload = String::from_str("[ERROR: Failed to wait for command. Error: ");
        payload.append(reason);
        payload.append("]");
        StreamEvent { kind: EventKind::Error, payload }
    }

    /// The event that reports that the process has exited with `code`.
    pub fn finished(code: Option<i32>) -> (event: StreamEvent)
        ensures
            event@ == finished_event_spec(code),
    {
        let mut payload = String::from_str("[COMMAND_FINISHED code=");
        match code {
            Some(n) => {
                payload.append("Some(");
                push_decimal_i32(&mut payload, n);
                payload.append(")");
                assert(payload@ == "[COMMAND_FINISHED code="@ + ("Some("@ + decimal(n as int)
                    + ")"@));
            },
            None => {
                payload.append("None");
            },
        }
        payload.append("]");
        StreamEvent { kind: EventKind::Done, payload }
    }

    /// Decides whether this event ends the stream.
    pub fn is_terminal(&self) -> (r: bool)
        ensures
            r == self@.kind.is_terminal(),
    {
        self.kind.ends_stream()
    }
}

} // verus!
