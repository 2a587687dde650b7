//! The event pump: every worker event becomes one interface event, in the
//! order of arrival, until the worker's exit has been reported.

use vstd::prelude::*;
use vstd::string::StringExecFns;
use vstd::utf8::{decode_utf8, valid_utf8};

use crate::event::{Channel, ExitInfo, UiEvent, UiEventView, WorkerEvent, WorkerEventView};

verus! {

/// The text that `String::from_utf8_lossy` makes of `bytes`: each invalid
/// sequence gives way to U+FFFD, the rest is decoded.
pub uninterp spec fn utf8_lossy(bytes: Seq<u8>) -> Seq<char>;

/// Decodes with `String::from_utf8_lossy` and owns the result. Trusted: the
/// result is the text named `utf8_lossy`, and for well-formed UTF-8 it is
/// the text those bytes encode.
#[verifier::external_body]
fn decode_lossy(bytes: &[u8]) -> (text: String)
    ensures
        text@ == utf8_lossy(bytes@),
        valid_utf8(bytes@) ==> text@ == decode_utf8(bytes@),
{
    String::from_utf8_lossy(bytes).into_owned()
}

/// What the interface is told of one worker event.
pub open spec fn translated(event: WorkerEventView) -> UiEventView {
    match event {
        WorkerEventView::StdoutLine(bytes) => UiEventView {
            channel: Channel::Output,
            body: utf8_lossy(bytes),
        },
        WorkerEventView::StderrLine(bytes) => UiEventView {
            channel: Channel::Error,
            body: "stderr: "@ + utf8_lossy(bytes),
        },
        WorkerEventView::LaunchError(message) => UiEventView {
            channel: Channel::Error,
            body: "error: "@ + message,
        },
        WorkerEventView::Terminated(info) => UiEventView {
            channel: Channel::Terminated,
            body: "Sidecar terminated with payload: "@ + info.payload_text(),
        },
    }
}

/// Whether `ui` carries the text that `bytes` encode, where they are
/// well-formed UTF-8, after `prefix`.
pub open spec fn carries_well_formed(ui: UiEventView, prefix: Seq<char>, bytes: Seq<u8>) -> bool {
    valid_utf8(bytes) ==> ui.body == prefix + decode_utf8(bytes)
}

/// The event for a decoded line of standard output: the text as it is.
pub fn output_event(text: String) -> (ui: UiEvent)
    ensures
        ui@ == (UiEventView { channel: Channel::Output, body: text@ }),
{
    UiEvent { channel: Channel::Output, body: text }
}

/// The event for a decoded line of standard error.
pub fn stderr_event(text: &str) -> (ui: UiEvent)
    ensures
        ui@ == (UiEventView { channel: Channel::Error, body: "stderr: "@ + text@ }),
{
    let mut body = String::from_str("stderr: ");
    body.append(text);
    UiEvent { channel: Channel::Error, body }
}

/// The event for an error that the worker's command reported.
pub fn command_error_event(message: &str) -> (ui: UiEvent)
    ensures
        ui@ == (UiEventView { channel: Channel::Error, body: "error: "@ + message@ }),
{
    let mut body = String::from_str("error: ");
    body.append(message);
    UiEvent { channel: Channel::Error, body }
}

/// The event for the worker's exit.
pub fn terminated_event(info: ExitInfo) -> (ui: UiEvent)
    ensures
        ui@ == (UiEventView {
            channel: Channel::Terminated,
            body: "Sidecar terminated with payload: "@ + info.payload_text(),
        }),
{
    let mut body = String::from_str("Sidecar terminated with payload: ");
    info.push_payload(&mut body);
    UiEvent { channel: Channel::Terminated, body }
}

/// Translates one worker event. Every event has a translation: bytes that
/// are no UTF-8 are decoded all the same, and well-formed UTF-8 is passed on
/// as the text it encodes.
pub fn translate(event: &WorkerEvent) -> (ui: UiEvent)
    ensures
        ui@ == translated(event@),
        event@ matches WorkerEventView::StdoutLine(bytes) ==> carries_well_formed(
            ui@,
            Seq::empty(),
            bytes,
        ),
        event@ matches WorkerEventView::StderrLine(bytes) ==> carries_well_formed(
            ui@,
            "stderr: "@,
            bytes,
        ),
{
    match event {
        WorkerEvent::StdoutLine(bytes) => output_event(decode_lossy(bytes.as_slice())),
        WorkerEvent::StderrLine(bytes) => {
            let text = decode_lossy(bytes.as_slice());
            stderr_event(text.as_str())
        },
        WorkerEvent::LaunchError(message) => command_error_event(message.as_str()),
        WorkerEvent::Terminated(info) => terminated_event(*info),
    }
}

/// What one run of the pump over a recorded stream did.
#[derive(Clone, Debug, PartialEq, Eq)]
pub struct PumpReport {
    /// The interface events, in the order in which they are to be sent.
    pub emitted: Vec<UiEvent>,
    /// How many events of the stream were taken.
    pub consumed: usize,
    /// Whether the last event taken reported the worker's exit.
    pub terminated: bool,
}

/// Whether `report` is what the pump makes of `stream`: the events are taken
/// from the front, one interface event each and in the same order, up to and
/// including the first that reports the worker's exit, or to the end of the
/// stream where none does.
pub open spec fn pumped(stream: Seq<WorkerEvent>, report: PumpReport) -> bool {
    &&& report.consumed <= stream.len()
    &&& report.emitted@.len() == report.consumed
    &&& forall|i: int|
        0 <= i < report.consumed ==> (#[trigger] report.emitted@[i])@ == translated(stream[i]@)
    &&& forall|i: int| 0 <= i < report.consumed - 1 ==> !((#[trigger] stream[i])@ is Terminated)
    &&& report.terminated <==> report.consumed > 0 && stream[report.consumed - 1]@ is Terminated
    &&& !report.terminated ==> report.consumed == stream.len()
}

/// Runs the pump over a recorded stream.
pub fn pump(stream: &[WorkerEvent]) -> (report: PumpReport)
    ensures
        pumped(stream@, report),
{
    let mut emitted: Vec<UiEvent> = Vec::new();
    let mut consumed: usize = 0;
    let mut terminated = false;
    while consumed < stream.len() && !terminated
        invariant
            consumed <= stream.len(),
            emitted@.len() == consumed,
            forall|i: int|
                0 <= i < consumed ==> (#[trigger] emitted@[i])@ == translated(stream@[i]@),
            forall|i: int| 0 <= i < consumed - 1 ==> !((#[trigger] stream@[i])@ is Terminated),
            terminated <==> consumed > 0 && stream@[consumed - 1]@ is Terminated,
        decreases stream.len() - consumed,
    {
        let event = &stream[consumed];
        emitted.push(translate(event));
        terminated = event.is_terminated();
        consumed += 1;
    }
    PumpReport { emitted, consumed, terminated }
}

} // verus!
