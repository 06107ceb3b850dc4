use vstd::prelude::*;

verus! {

/// The outcome of one dialog invocation.
#[derive(Debug, Clone, Copy, PartialEq, Eq, Structural)]
pub enum DialogResult {
    /// No decision was committed (the window was closed without a choice).
    Undefined,
    Cancel,
    OK,
}

/// Single-slot storage through which the message handler hands the committed
/// decision to the caller that waits for the window to close.
///
/// Its lifecycle is reset on entry, commit on a terminal message, read on exit.
pub struct ResultSlot {
    value: DialogResult,
}

impl View for ResultSlot {
    type V = DialogResult;

    closed spec fn view(&self) -> DialogResult {
        self.value
    }
}

impl ResultSlot {
    /// A slot that holds no decision yet.
    pub fn new() -> (r: ResultSlot)
        ensures
            r@ == DialogResult::Undefined,
    {
        ResultSlot { value: DialogResult::Undefined }
    }

    /// Forgets whatever an earlier invocation committed.
    pub fn reset(&mut self)
        ensures
            final(self)@ == DialogResult::Undefined,
    {
        self.value = DialogResult::Undefined;
    }

    /// Stores `value`, replacing what the slot held.
    pub fn commit(&mut self, value: DialogResult)
        ensures
            final(self)@ == value,
    {
        self.value = value;
    }

    /// The value last stored (`Undefined` after a reset with no commit).
    pub fn read(&self) -> (r: DialogResult)
        ensures
            r == self@,
    {
        self.value
    }
}

} // verus!
