//! What a worker reports, and what the interface is told.

use vstd::prelude::*;
use vstd::string::StringExecFns;

use crate::text::{option_text, push_option};

verus! {

/// The named channels on which the interface receives events.
#[derive(Clone, Copy, Debug, PartialEq, Eq, Structural)]
pub enum Channel {
    /// A line the worker wrote to its standard output.
    Output,
    /// A line the worker wrote to its standard error, a failed launch, or an
    /// error the worker's command reported.
    Error,
    /// A change in the worker's lifecycle.
    Message,
    /// The worker's exit.
    Terminated,
}

impl Channel {
    /// The name under which the interface listens for this channel.
    pub open spec fn name_text(self) -> Seq<char> {
        match self {
            Channel::Output => "core-output"@,
            Channel::Error => "core-error"@,
            Channel::Message => "core-message"@,
            Channel::Terminated => "core-terminated"@,
        }
    }

    /// The name under which the interface listens for this channel.
    pub fn name(&self) -> (s: &'static str)
        ensures
            s@ == self.name_text(),
    {
        match self {
            Channel::Output => "core-output",
            Channel::Error => "core-error",
            Channel::Message => "core-message",
            Channel::Terminated => "core-terminated",
        }
    }
}

/// One event for the interface: a channel and a text body.
#[derive(Clone, Debug, PartialEq, Eq)]
pub struct UiEvent {
    pub channel: Channel,
    pub body: String,
}

/// A `UiEvent` as contracts speak of it.
pub struct UiEventView {
    pub channel: Channel,
    pub body: Seq<char>,
}

impl View for UiEvent {
    type V = UiEventView;

    open spec fn view(&self) -> UiEventView {
        UiEventView { channel: self.channel, body: self.body@ }
    }
}

/// How a worker ended: its exit code, and the signal that ended it, as far
/// as the operating system gave them.
#[derive(Clone, Copy, Debug, PartialEq, Eq)]
pub struct ExitInfo {
    pub code: Option<i32>,
    pub signal: Option<i32>,
}

impl ExitInfo {
    /// The exit information written out field by field, in the form that
    /// `Debug` derives for a struct of the name `TerminatedPayload`.
    pub open spec fn payload_text(self) -> Seq<char> {
        "TerminatedPayload { code: "@ + option_text(self.code) + ", signal: "@ + option_text(
            self.signal,
        ) + " }"@
    }

    /// Appends `payload_text` to `out`.
    pub fn push_payload(&self, out: &mut String)
        ensures
            final(out)@ == old(out)@ + self.payload_text(),
    {
        out.append("TerminatedPayload { code: ");
        push_option(out, self.code);
        out.append(", signal: ");
        push_option(out, self.signal);
        out.append(" }");
    }
}

/// One event from a worker's event stream.
#[derive(Clone, Debug, PartialEq, Eq)]
pub enum WorkerEvent {
    /// Bytes the worker wrote to its standard output.
    StdoutLine(Vec<u8>),
    /// Bytes the worker wrote to its standard error.
    StderrLine(Vec<u8>),
    /// An error met while running the worker's command.
    LaunchError(String),
    /// The worker has exited.
    Terminated(ExitInfo),
}

/// A `WorkerEvent` as contracts speak of it.
pub enum WorkerEventView {
    StdoutLine(Seq<u8>),
    StderrLine(Seq<u8>),
    LaunchError(Seq<char>),
    Terminated(ExitInfo),
}

impl View for WorkerEvent {
    type V = WorkerEventView;

    open spec fn view(&self) -> WorkerEventView {
        match self {
            WorkerEvent::StdoutLine(bytes) => WorkerEventView::StdoutLine(bytes@),
            WorkerEvent::StderrLine(bytes) => WorkerEventView::StderrLine(bytes@),
            WorkerEvent::LaunchError(message) => WorkerEventView::LaunchError(message@),
            WorkerEvent::Terminated(info) => WorkerEventView::Terminated(*info),
        }
    }
}

impl WorkerEvent {
    /// Whether this event reports the worker's exit.
    pub fn is_terminated(&self) -> (b: bool)
        ensures
            b == (self@ is Terminated),
    {
        match self {
            WorkerEvent::Terminated(_) => true,
            _ => false,
        }
    }
}

/// The step of a launch that failed.
#[derive(Clone, Copy, Debug, PartialEq, Eq, Structural)]
pub enum LaunchStage {
    /// The worker's command could not be made.
    Resolve,
    /// The operating system refused to start the command.
    Spawn,
}

/// A launch that produced no worker.
#[derive(Clone, Debug, PartialEq, Eq)]
pub struct LaunchFailure {
    pub stage: LaunchStage,
    pub reason: String,
}

/// A `LaunchFailure` as contracts speak of it.
pub struct LaunchFailureView {
    pub stage: LaunchStage,
    pub reason: Seq<char>,
}

impl View for LaunchFailure {
    type V = LaunchFailureView;

    open spec fn view(&self) -> LaunchFailureView {
        LaunchFailureView { stage: self.stage, reason: self.reason@ }
    }
}

} // verus!
