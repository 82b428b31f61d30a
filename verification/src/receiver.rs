//! What the decoder reports, and to whom.

use vstd::prelude::*;

verus! {

/// One thing the decoder tells its receiver.
#[derive(Clone, Copy, Debug, PartialEq, Eq, Hash)]
pub enum Event {
    /// A scalar value was decoded.
    Codepoint(char),
    /// The byte just consumed could not begin or extend a sequence.
    InvalidSequence,
}

/// Handles the code points and the invalid sequences that the decoder finds.
///
/// An implementation says through [`Receiver::receives`] what being handed
/// an event does to it. It may say as much or as little as it likes; the
/// decoder passes on to its own callers whatever is said.
pub trait Receiver {
    /// Whether a receiver in the state `self`, handed `event`, may end up in
    /// the state `after`.
    ///
    /// Left as it is, this says nothing of the receiver: every state may
    /// follow.
    open spec fn receives(&self, event: Event, after: &Self) -> bool {
        true
    }

    /// Called with each decoded code point.
    fn codepoint(&mut self, c: char)
        ensures
            old(self).receives(Event::Codepoint(c), final(self)),
    ;

    /// Called for each byte that could not begin or extend a sequence.
    fn invalid_sequence(&mut self)
        ensures
            old(self).receives(Event::InvalidSequence, final(self)),
    ;
}

/// A vector of events is a receiver that records what it is handed, in
/// order.
impl Receiver for Vec<Event> {
    open spec fn receives(&self, event: Event, after: &Self) -> bool {
        after@ == self@.push(event)
    }

    fn codepoint(&mut self, c: char) {
        self.push(Event::Codepoint(c));
    }

    fn invalid_sequence(&mut self) {
        self.push(Event::InvalidSequence);
    }
}

} // verus!
