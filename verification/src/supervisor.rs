//! The supervisor: launch the worker, run it, drain after its exit, cool
//! down, and launch again, without end.
//!
//! The supervisor is a state machine. The driver does what `directive` names
//! for the present phase, reports the result as a `Signal`, and `step` answers
//! with the next phase, what to do to the slot and what to tell the
//! interface. The driver applies these in that order. Whether the interface
//! could be told is never reported back, so it bears on nothing.

use vstd::prelude::*;
use vstd::string::StringExecFns;

use crate::event::{
    Channel, LaunchFailure, LaunchFailureView, LaunchStage, UiEvent, UiEventView, WorkerEvent,
};
use crate::pump::{translate, translated};
use crate::slot::SlotOp;
use crate::text::{decimal_digits, push_decimal};

verus! {

/// Seconds between the end of one worker, or a failed launch, and the next
/// launch. The delay is the same every time.
pub const RESTART_DELAY_SECS: u64 = 5;

/// Where the supervisor stands.
#[derive(Clone, Copy, Debug, PartialEq, Eq, Structural)]
pub enum Phase {
    /// A worker is to be launched.
    Launching,
    /// A worker is installed and its events are pumped.
    Running,
    /// The worker's stream is over; its handle is still in the slot.
    Draining,
    /// The slot is empty and the delay before the next launch runs.
    CoolingDown,
}

impl Default for Phase {
    /// The phase in which a supervisor starts.
    fn default() -> (phase: Self)
        ensures
            phase == Phase::Launching,
    {
        Phase::Launching
    }
}

/// What the driver does for a phase before it reports back.
#[derive(Clone, Copy, Debug, PartialEq, Eq, Structural)]
pub enum Directive {
    /// Launch the worker; report `Launched` or `LaunchFailed`.
    Launch,
    /// Wait for the worker's next event; report `Worker` or `StreamClosed`.
    AwaitEvent,
    /// Nothing to wait for; report `Continue` at once.
    Continue,
    /// Wait this many seconds, holding no lock; report `DelayElapsed`.
    Sleep { secs: u64 },
}

/// What the driver reports to the supervisor.
#[derive(Debug, PartialEq, Eq)]
pub enum Signal<H> {
    /// The worker runs; this is its handle.
    Launched(H),
    /// The launch produced no worker.
    LaunchFailed(LaunchFailure),
    /// The worker's stream delivered an event.
    Worker(WorkerEvent),
    /// The worker's stream ended.
    StreamClosed,
    /// The answer to `Directive::Continue`.
    Continue,
    /// The delay is over.
    DelayElapsed,
}

/// The supervisor's answer to a signal.
#[derive(Debug, PartialEq, Eq)]
pub struct Transition<H> {
    /// The phase from now on.
    pub next: Phase,
    /// What to do to the slot, under its lock, before anything is emitted.
    pub slot: SlotOp<H>,
    /// What to tell the interface, if anything.
    pub emit: Option<UiEvent>,
}

/// A `Transition` as contracts speak of it.
pub struct TransitionView<H> {
    pub next: Phase,
    pub slot: SlotOp<H>,
    pub emit: Option<UiEventView>,
}

impl<H> View for Transition<H> {
    type V = TransitionView<H>;

    open spec fn view(&self) -> TransitionView<H> {
        TransitionView {
            next: self.next,
            slot: self.slot,
            emit: match self.emit {
                Some(ui) => Some(ui@),
                None => None,
            },
        }
    }
}

/// What the driver does for `phase`.
pub open spec fn directive_of(phase: Phase) -> Directive {
    match phase {
        Phase::Launching => Directive::Launch,
        Phase::Running => Directive::AwaitEvent,
        Phase::Draining => Directive::Continue,
        Phase::CoolingDown => Directive::Sleep { secs: RESTART_DELAY_SECS },
    }
}

/// What the driver does for `phase`.
pub fn directive(phase: Phase) -> (d: Directive)
    ensures
        d == directive_of(phase),
{
    match phase {
        Phase::Launching => Directive::Launch,
        Phase::Running => Directive::AwaitEvent,
        Phase::Draining => Directive::Continue,
        Phase::CoolingDown => Directive::Sleep { secs: RESTART_DELAY_SECS },
    }
}

/// What the interface is told of a failed launch.
pub open spec fn launch_failure_text(failure: LaunchFailureView) -> Seq<char> {
    match failure.stage {
        LaunchStage::Resolve => "Failed to get sidecar command: "@ + failure.reason,
        LaunchStage::Spawn => "Failed to spawn sidecar: "@ + failure.reason,
    }
}

/// What the interface is told when a worker has been installed.
pub open spec fn started_text() -> Seq<char> {
    "Sidecar process started/restarted."@
}

/// What the interface is told when the slot has been cleared: that the
/// worker is gone, and after how many seconds the next is launched.
pub open spec fn restarting_text() -> Seq<char> {
    "Sidecar process ended. Attempting to restart in "@ + decimal_digits(
        RESTART_DELAY_SECS as nat,
    ) + " seconds..."@
}

/// The event for a failed launch.
pub open spec fn launch_failure_view(failure: LaunchFailureView) -> UiEventView {
    UiEventView { channel: Channel::Error, body: launch_failure_text(failure) }
}

/// The event for an installed worker.
pub open spec fn started_view() -> UiEventView {
    UiEventView { channel: Channel::Message, body: started_text() }
}

/// The event for a cleared slot.
pub open spec fn restarting_view() -> UiEventView {
    UiEventView { channel: Channel::Message, body: restarting_text() }
}

/// The supervisor's answer to `signal` in `phase`; `None` where the signal
/// does not answer the phase's directive.
pub open spec fn transition_of<H>(phase: Phase, signal: Signal<H>) -> Option<TransitionView<H>> {
    match (phase, signal) {
        (Phase::Launching, Signal::Launched(handle)) => Some(
            TransitionView {
                next: Phase::Running,
                slot: SlotOp::Install(handle),
                emit: Some(started_view()),
            },
        ),
        (Phase::Launching, Signal::LaunchFailed(failure)) => Some(
            TransitionView {
                next: Phase::CoolingDown,
                slot: SlotOp::Keep,
                emit: Some(launch_failure_view(failure@)),
            },
        ),
        (Phase::Running, Signal::Worker(event)) => Some(
            TransitionView {
                next: if event@ is Terminated {
                    Phase::Draining
                } else {
                    Phase::Running
                },
                slot: SlotOp::Keep,
                emit: Some(translated(event@)),
            },
        ),
        (Phase::Running, Signal::StreamClosed) => Some(
            TransitionView { next: Phase::Draining, slot: SlotOp::Keep, emit: None },
        ),
        (Phase::Draining, Signal::Continue) => Some(
            TransitionView {
                next: Phase::CoolingDown,
                slot: SlotOp::Clear,
                emit: Some(restarting_view()),
            },
        ),
        (Phase::CoolingDown, Signal::DelayElapsed) => Some(
            TransitionView { next: Phase::Launching, slot: SlotOp::Keep, emit: None },
        ),
        _ => None,
    }
}

/// The event for a failed launch.
pub fn launch_failure_event(failure: &LaunchFailure) -> (ui: UiEvent)
    ensures
        ui@ == launch_failure_view(failure@),
{
    let mut body = match failure.stage {
        LaunchStage::Resolve => String::from_str("Failed to get sidecar command: "),
        LaunchStage::Spawn => String::from_str("Failed to spawn sidecar: "),
    };
    body.append(failure.reason.as_str());
    UiEvent { channel: Channel::Error, body }
}

/// The event for an installed worker.
pub fn started_event() -> (ui: UiEvent)
    ensures
        ui@ == started_view(),
{
    UiEvent { channel: Channel::Message, body: String::from_str("Sidecar process started/restarted.") }
}

/// The event for a cleared slot.
pub fn restarting_event() -> (ui: UiEvent)
    ensures
        ui@ == restarting_view(),
{
    let mut body = String::from_str("Sidecar process ended. Attempting to restart in ");
    push_decimal(&mut body, RESTART_DELAY_SECS);
    body.append(" seconds...");
    UiEvent { channel: Channel::Message, body }
}

/// Answers `signal` in `phase`. The answer is `None`, and nothing is to be
/// done, exactly where the signal does not answer the phase's directive; a
/// handle that came with such a signal is dropped.
pub fn step<H>(phase: Phase, signal: Signal<H>) -> (res: Option<Transition<H>>)
    ensures
        match res {
            Some(transition) => transition_of(phase, signal) == Some(transition@),
            None => transition_of(phase, signal) is None,
        },
{
    match phase {
        Phase::Launching => match signal {
            Signal::Launched(handle) => Some(
                Transition {
                    next: Phase::Running,
                    slot: SlotOp::Install(handle),
                    emit: Some(started_event()),
                },
            ),
            Signal::LaunchFailed(failure) => Some(
                Transition {
                    next: Phase::CoolingDown,
                    slot: SlotOp::Keep,
                    emit: Some(launch_failure_event(&failure)),
                },
            ),
            _ => None,
        },
        Phase::Running => match signal {
            Signal::Worker(event) => {
                let next = if event.is_terminated() {
                    Phase::Draining
                } else {
                    Phase::Running
                };
                Some(Transition { next, slot: SlotOp::Keep, emit: Some(translate(&event)) })
            },
            Signal::StreamClosed => Some(
                Transition { next: Phase::Draining, slot: SlotOp::Keep, emit: None },
            ),
            _ => None,
        },
        Phase::Draining => match signal {
            Signal::Continue => Some(
                Transition {
                    next: Phase::CoolingDown,
                    slot: SlotOp::Clear,
                    emit: Some(restarting_event()),
                },
            ),
            _ => None,
        },
        Phase::CoolingDown => match signal {
            Signal::DelayElapsed => Some(
                Transition { next: Phase::Launching, slot: SlotOp::Keep, emit: None },
            ),
            _ => None,
        },
    }
}

} // verus!
