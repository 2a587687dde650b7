//! Forwarding of input from the interface to the worker's standard input.
//!
//! The worker reads lines. Each input is sent as one frame: the text's bytes
//! and one line feed after them, whether or not the text ends in one itself.

use vstd::prelude::*;
use vstd::string::{StrSliceExecFns, StringExecFns};
use vstd::utf8::encode_utf8;

use crate::slot::SharedProcessSlot;

verus! {

/// The byte that ends every frame.
pub const LINE_FEED: u8 = 0x0a;

/// Why an input did not reach the worker.
#[derive(Clone, Debug, PartialEq, Eq)]
pub enum InputError {
    /// No worker is installed.
    NotRunning,
    /// The write to the worker's standard input failed.
    WriteFailed { reason: String },
}

/// An `InputError` as contracts speak of it.
pub enum InputErrorView {
    NotRunning,
    WriteFailed { reason: Seq<char> },
}

impl View for InputError {
    type V = InputErrorView;

    open spec fn view(&self) -> InputErrorView {
        match self {
            InputError::NotRunning => InputErrorView::NotRunning,
            InputError::WriteFailed { reason } => InputErrorView::WriteFailed { reason: reason@ },
        }
    }
}

impl InputErrorView {
    /// The sentence that the caller is given.
    pub open spec fn message(self) -> Seq<char> {
        match self {
            InputErrorView::NotRunning => "Sidecar process not started or already terminated."@,
            InputErrorView::WriteFailed { reason } => "Failed to write to sidecar stdin: "@ + reason,
        }
    }
}

impl InputError {
    /// The sentence that the caller is given.
    pub fn message(&self) -> (text: String)
        ensures
            text@ == self@.message(),
    {
        match self {
            InputError::NotRunning => String::from_str(
                "Sidecar process not started or already terminated.",
            ),
            InputError::WriteFailed { reason } => {
                let mut text = String::from_str("Failed to write to sidecar stdin: ");
                text.append(reason.as_str());
                text
            },
        }
    }
}

/// The frame for `text`: its UTF-8 bytes, then one line feed.
pub open spec fn framed(text: Seq<char>) -> Seq<u8> {
    encode_utf8(text).push(LINE_FEED)
}

/// Builds the frame for `text`.
pub fn frame_input(text: &str) -> (frame: Vec<u8>)
    ensures
        frame@ == framed(text@),
{
    let mut frame = text.as_bytes_vec();
    frame.push(LINE_FEED);
    frame
}

/// Decides what becomes of an input. With a worker installed the result is
/// the frame to write to it; with none the input is refused and there is
/// nothing to write.
pub fn admit_input<H>(slot: &SharedProcessSlot<H>, text: &str) -> (res: Result<Vec<u8>, InputError>)
    ensures
        slot@ is Some ==> res is Ok && res->Ok_0@ == framed(text@),
        slot@ is None ==> res is Err && res->Err_0@ == InputErrorView::NotRunning,
{
    if slot.is_installed() {
        Ok(frame_input(text))
    } else {
        Err(InputError::NotRunning)
    }
}

/// What the caller is told once the frame's write has returned: success, or
/// the failure with the reason that the write gave.
pub fn conclude_input(written: Result<(), String>) -> (res: Result<(), InputError>)
    ensures
        written is Ok ==> res is Ok,
        written is Err ==> res is Err && res->Err_0@ == (InputErrorView::WriteFailed {
            reason: written->Err_0@,
        }),
{
    match written {
        Ok(()) => Ok(()),
        Err(reason) => Err(InputError::WriteFailed { reason }),
    }
}

/// A frame is the text's bytes and exactly one line feed more, whatever the
/// text ends in.
pub proof fn lemma_frame_adds_one_line_feed(text: Seq<char>)
    ensures
        framed(text).len() == encode_utf8(text).len() + 1,
        framed(text).drop_last() == encode_utf8(text),
        framed(text).last() == LINE_FEED,
{
    assert(framed(text).drop_last() =~= encode_utf8(text));
}

/// What the worker's standard input has received once the inputs `texts`
/// have been written, each as its frame and one call at a time, as the
/// slot's lock has it.
pub open spec fn stdin_after(texts: Seq<Seq<char>>) -> Seq<u8>
    decreases texts.len(),
{
    if texts.len() == 0 {
        Seq::empty()
    } else {
        stdin_after(texts.drop_last()) + framed(texts.last())
    }
}

/// Where in the worker's standard input the frame of the call at `i`
/// begins: after all that the calls before it wrote.
pub open spec fn frame_start(texts: Seq<Seq<char>>, i: int) -> int {
    stdin_after(texts.take(i)).len() as int
}

/// Where calls are served one at a time, the bytes of each call stand
/// together in the worker's standard input: the frame of the call at `i`
/// begins where the calls before it end, and no byte of another call lies
/// inside it.
pub proof fn lemma_frames_stay_whole(texts: Seq<Seq<char>>, i: int)
    requires
        0 <= i < texts.len(),
    ensures
        frame_start(texts, i) + framed(texts[i]).len() <= stdin_after(texts).len(),
        stdin_after(texts).subrange(
            frame_start(texts, i),
            frame_start(texts, i) + framed(texts[i]).len(),
        ) == framed(texts[i]),
    decreases texts.len(),
{
    let before = texts.drop_last();
    let start = frame_start(texts, i);
    let end = start + framed(texts[i]).len();
    if i == texts.len() - 1 {
        assert(texts.take(i) =~= before);
        assert(stdin_after(texts).subrange(start, end) =~= framed(texts[i]));
    } else {
        lemma_frames_stay_whole(before, i);
        assert(before.take(i) =~= texts.take(i));
        assert(before[i] == texts[i]);
        assert(stdin_after(texts).subrange(start, end) =~= stdin_after(before).subrange(
            start,
            end,
        ));
    }
}

} // verus!
