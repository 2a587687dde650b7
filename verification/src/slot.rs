//! The slot that holds the handle of the worker now running.
//!
//! The driver keeps one slot behind a lock and shares it between the
//! supervisor, which installs and clears, and the path that forwards input.
//! A slot holds at most one handle; an empty slot means that no worker is
//! running and that input must be refused.

use vstd::prelude::*;

verus! {

/// What a transition of the supervisor does to the slot.
#[derive(Debug, PartialEq, Eq)]
pub enum SlotOp<H> {
    /// The slot stays as it is.
    Keep,
    /// The handle of the worker just launched goes into the slot.
    Install(H),
    /// The slot is emptied.
    Clear,
}

/// The content of a slot after `op`.
pub open spec fn slot_after<H>(slot: Option<H>, op: SlotOp<H>) -> Option<H> {
    match op {
        SlotOp::Keep => slot,
        SlotOp::Install(handle) => Some(handle),
        SlotOp::Clear => None,
    }
}

/// Holds the handle of the running worker, or nothing.
pub struct SharedProcessSlot<H> {
    handle: Option<H>,
}

impl<H> View for SharedProcessSlot<H> {
    type V = Option<H>;

    closed spec fn view(&self) -> Option<H> {
        self.handle
    }
}

impl<H> SharedProcessSlot<H> {
    /// An empty slot.
    pub fn new() -> (slot: Self)
        ensures
            slot@ is None,
    {
        SharedProcessSlot { handle: None }
    }

    /// Whether a handle is installed.
    pub fn is_installed(&self) -> (b: bool)
        ensures
            b == (self@ is Some),
    {
        self.handle.is_some()
    }

    /// Puts `handle` into the slot. A handle that was there is dropped.
    pub fn install(&mut self, handle: H)
        ensures
            final(self)@ == Some(handle),
    {
        self.handle = Some(handle);
    }

    /// Empties the slot, dropping the handle that was there.
    pub fn clear(&mut self)
        ensures
            final(self)@ is None,
    {
        self.handle = None;
    }

    /// Does to the slot what a transition asks for.
    pub fn apply(&mut self, op: SlotOp<H>)
        ensures
            final(self)@ == slot_after(old(self)@, op),
    {
        match op {
            SlotOp::Keep => {},
            SlotOp::Install(handle) => {
                self.handle = Some(handle);
            },
            SlotOp::Clear => {
                self.handle = None;
            },
        }
    }

    /// The installed handle, for writing to the worker through it.
    pub fn handle_mut(&mut self) -> (handle: Option<&mut H>)
        ensures
            old(self)@ is None ==> handle is None && final(self)@ is None,
            old(self)@ is Some ==> handle is Some && *handle->0 == old(self)@->0 && final(self)@
                == Some(*final(handle->0)),
    {
        match &mut self.handle {
            Some(h) => Some(h),
            None => None,
        }
    }
}

impl<H> Default for SharedProcessSlot<H> {
    fn default() -> (slot: Self)
        ensures
            slot@ is None,
    {
        SharedProcessSlot { handle: None }
    }
}

} // verus!
