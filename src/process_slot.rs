//! The slot that holds the one foreground child, shared by the shell loop
//! and the interrupt listener, and what the listener does on an interrupt.
use vstd::prelude::*;

verus! {

/// What the interrupt listener does on one interrupt.
#[derive(PartialEq, Eq, Structural, Clone, Copy, Debug)]
pub enum InterruptAction {
    /// A child is running: announce it and ask it to terminate.
    Terminate,
    /// No child is running: restore the prompt and change nothing.
    Reprompt,
}

/// The listener's response to an interrupt, from whether a child is active.
pub open spec fn interrupt_action(active: bool) -> InterruptAction {
    if active {
        InterruptAction::Terminate
    } else {
        InterruptAction::Reprompt
    }
}

/// The text the listener writes for each response.
pub open spec fn interrupt_text(action: InterruptAction) -> Seq<char> {
    match action {
        InterruptAction::Terminate => "CTRL-C detected. Terminating active task.\n"@,
        InterruptAction::Reprompt => "\n-> "@,
    }
}

impl InterruptAction {
    /// The text to write before acting.
    pub fn message(&self) -> (r: &'static str)
        ensures
            r@ == interrupt_text(*self),
    {
        match self {
            InterruptAction::Terminate => "CTRL-C detected. Terminating active task.\n",
            InterruptAction::Reprompt => "\n-> ",
        }
    }
}

/// At most one handle of a running child. `H` is the handle's type.
pub struct ProcessSlot<H> {
    active: Option<H>,
}

impl<H> View for ProcessSlot<H> {
    type V = Option<H>;

    closed spec fn view(&self) -> Option<H> {
        self.active
    }
}

impl<H> ProcessSlot<H> {
    /// An empty slot.
    pub fn new() -> (r: Self)
        ensures
            r@ is None,
    {
        ProcessSlot { active: None }
    }

    /// Tells whether a child is in the slot.
    pub fn is_occupied(&self) -> (r: bool)
        ensures
            r == self@ is Some,
    {
        self.active.is_some()
    }

    /// Decides the response to an interrupt. The slot is only read.
    pub fn on_interrupt(&self) -> (r: InterruptAction)
        ensures
            r == interrupt_action(self@ is Some),
    {
        if self.active.is_some() {
            InterruptAction::Terminate
        } else {
            InterruptAction::Reprompt
        }
    }

    /// Lends the handle in the slot, if any, to ask the child to terminate
    /// or to see whether it has exited. The slot stays occupied as it was.
    pub fn handle_mut(&mut self) -> (r: Option<&mut H>)
        ensures
            r is Some <==> old(self)@ is Some,
            r is Some ==> *r->0 == old(self)@->0 && final(self)@ == Some(*final(r->0)),
            r is None ==> final(self)@ is None,
    {
        self.active.as_mut()
    }

    /// Puts `child` in the slot if it is empty; otherwise hands it back and
    /// leaves the slot as it was.
    pub(crate) fn store(&mut self, child: H) -> (r: Result<(), H>)
        ensures
            old(self)@ is None ==> r is Ok && final(self)@ == Some(child),
            old(self)@ is Some ==> r == Err::<(), H>(child) && final(self)@ == old(self)@,
    {
        if self.active.is_some() {
            Err(child)
        } else {
            self.active = Some(child);
            Ok(())
        }
    }

    /// Empties the slot and hands back what was in it.
    pub(crate) fn take(&mut self) -> (r: Option<H>)
        ensures
            r == old(self)@,
            final(self)@ is None,
    {
        let r = self.active.take();
        r
    }
}

} // verus!
