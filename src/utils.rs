//! Messages, and the output they are written to before the driver shows them.
use vstd::prelude::*;

verus! {

/// Why a write to the output failed.
#[derive(PartialEq, Eq, Structural, Clone, Copy, Debug)]
pub enum WriteOutputError {
    WriteError,
}

/// The outcome of a write to the output.
#[derive(PartialEq, Eq, Structural, Clone, Copy, Debug)]
pub enum IoState {
    Written,
    Error(WriteOutputError),
}

impl IoState {
    /// The outcome of handing text to the terminal, from whether it was
    /// written and flushed.
    pub fn from_flush(flushed: bool) -> (r: IoState)
        ensures
            r == (if flushed {
                IoState::Written
            } else {
                IoState::Error(WriteOutputError::WriteError)
            }),
    {
        if flushed {
            IoState::Written
        } else {
            IoState::Error(WriteOutputError::WriteError)
        }
    }
}

/// A message that can be written to the output: a plain text, or a
/// description paired with a detail.
pub trait WriteOutput: Sized {
    /// The characters that the message puts on the output.
    spec fn text(&self) -> Seq<char>;

    /// Appends the message to `pending`, the output not yet shown.
    fn write_output(self, pending: &mut String) -> (r: IoState)
        ensures
            final(pending)@ == old(pending)@ + self.text(),
            r == IoState::Written,
    ;
}

/// A plain text is written as it stands.
impl<'a> WriteOutput for &'a str {
    open spec fn text(&self) -> Seq<char> {
        self@
    }

    fn write_output(self, pending: &mut String) -> (r: IoState) {
        pending.append(self);
        IoState::Written
    }
}

/// A description and a detail are written as `description: detail` on a
/// line of their own.
impl<'a, 'b> WriteOutput for (&'a str, &'b str) {
    open spec fn text(&self) -> Seq<char> {
        self.0@ + ": "@ + self.1@ + "\n"@
    }

    fn write_output(self, pending: &mut String) -> (r: IoState) {
        pending.append(self.0);
        pending.append(": ");
        pending.append(self.1);
        pending.append("\n");
        IoState::Written
    }
}

/// Writes `msg` to `pending`, the output not yet shown.
pub fn write_output<T: WriteOutput>(msg: T, pending: &mut String) -> (r: IoState)
    ensures
        final(pending)@ == old(pending)@ + msg.text(),
        r == IoState::Written,
{
    msg.write_output(pending)
}

/// The prompt marker.
pub open spec fn prompt_text() -> Seq<char> {
    "-> "@
}

/// The prompt marker that the shell writes before each read.
pub fn prompt() -> (r: &'static str)
    ensures
        r@ == prompt_text(),
{
    "-> "
}

} // verus!
