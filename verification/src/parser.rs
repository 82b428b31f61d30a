//! The decoder itself: one state, one accumulator, one byte at a time.

use crate::model::{accumulate, emission, lemma_step_wf, Snapshot};
use crate::receiver::Receiver;
use crate::table::{lookup, transition};
use crate::types::{Action, State};
use vstd::pervasive::unreached;
use vstd::prelude::*;

verus! {

/// `char::from_u32` of the standard library gives the `char` with the
/// given number where there is one, that is, for every number up to
/// `0x10FFFF` outside the surrogates `0xD800..=0xDFFF`, and `None` for every
/// other number.
pub assume_specification[ char::from_u32 ](i: u32) -> (c: Option<char>)
    ensures
        c == if i <= 0xD7FF || 0xE000 <= i <= 0x10_FFFF {
            Some(i as char)
        } else {
            None::<char>
        },
;

/// Continuation bytes are masked with this value.
const CONTINUATION_MASK: u8 = 0b0011_1111;

/// A streaming decoder of UTF-8.
///
/// Feed it bytes with [`Parser::advance`], one at a time and in any
/// portions; it tells the receiver of each code point as soon as its last
/// byte has come, and of each byte that fits nowhere.
pub struct Parser {
    point: u32,
    state: State,
}

impl View for Parser {
    type V = Snapshot;

    closed spec fn view(&self) -> Snapshot {
        Snapshot { state: self.state, accumulator: self.point }
    }
}

impl Parser {
    /// What holds of every decoder: its state and its accumulator fit
    /// together.
    #[verifier::type_invariant]
    pub open spec fn well_formed(self) -> bool {
        self@.wf()
    }

    /// A decoder in the ground state, with nothing accumulated.
    pub fn new() -> (parser: Parser)
        ensures
            parser@ == Snapshot::ground(),
    {
        Parser { point: 0, state: State::Ground }
    }

    /// The state that the automaton is in.
    pub fn state(&self) -> (state: State)
        ensures
            state == self@.state,
    {
        self.state
    }

    /// The bits gathered so far of the code point under way; zero between
    /// two sequences.
    pub fn accumulator(&self) -> (accumulator: u32)
        ensures
            accumulator == self@.accumulator,
    {
        self.point
    }

    /// Advances the decoder by one byte.
    ///
    /// The decoder moves as [`Snapshot::step`] says. The receiver is handed
    /// the one event that the step emits, and is left alone where the step
    /// emits none.
    pub fn advance<R>(&mut self, receiver: &mut R, byte: u8) where R: Receiver
        ensures
            final(self)@ == old(self)@.step(byte).0,
            final(self)@.wf(),
            match old(self)@.step(byte).1 {
                Some(event) => old(receiver).receives(event, final(receiver)),
                None => *final(receiver) == *old(receiver),
            },
    {
        proof {
            use_type_invariant(&*self);
            lemma_step_wf(self@, byte);
        }
        let (state, action) = lookup(self.state, byte);
        let point = self.perform_action(receiver, byte, action);
        *self = Parser { point, state };
    }

    /// Performs `action` on `byte`: tells the receiver what the action
    /// emits, and returns the accumulator that the action leaves.
    fn perform_action<R>(&self, receiver: &mut R, byte: u8, action: Action) -> (point: u32) where
        R: Receiver,

        requires
            action == transition(self@.state, byte).1,
        ensures
            point == accumulate(self@.accumulator, byte, action),
            match emission(self@.accumulator, byte, action) {
                Some(event) => old(receiver).receives(event, final(receiver)),
                None => *final(receiver) == *old(receiver),
            },
    {
        proof {
            use_type_invariant(self);
            lemma_step_wf(self@, byte);
        }
        match action {
            Action::InvalidSequence => {
                receiver.invalid_sequence();
                0
            },
            Action::EmitByte => {
                receiver.codepoint(byte as char);
                self.point
            },
            Action::SetByte1 => {
                let point = self.point | ((byte & CONTINUATION_MASK) as u32);
                match char::from_u32(point) {
                    Some(c) => receiver.codepoint(c),
                    None => unreached(),
                }
                0
            },
            Action::SetByte2 => self.point | (((byte & CONTINUATION_MASK) as u32) << 6),
            Action::SetByte2Top => self.point | (((byte & 0b0001_1111) as u32) << 6),
            Action::SetByte3 => self.point | (((byte & CONTINUATION_MASK) as u32) << 12),
            Action::SetByte3Top => self.point | (((byte & 0b0000_1111) as u32) << 12),
            Action::SetByte4 => self.point | (((byte & 0b0000_0111) as u32) << 18),
        }
    }
}

} // verus!
