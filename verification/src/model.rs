//! The decoder as mathematics: what it remembers between two bytes, what one
//! byte does to it, and what a sequence of bytes does to it.

use crate::receiver::Event;
use crate::table::transition;
use crate::types::{Action, State};
use vstd::prelude::*;
use vstd::utf8::{
    continuation_bits, is_scalar, leading_bits_width_2, leading_bits_width_3,
    leading_bits_width_4,
};

verus! {

/// The accumulator after `action` has been performed on `byte`.
///
/// A leading byte contributes the data bits that its length leaves it, a
/// continuation byte its low six bits, each shifted to the place that the
/// byte holds in the sequence. Completing a code point or meeting an invalid
/// sequence clears the accumulator; an ASCII byte passes it by.
pub open spec fn accumulate(accumulator: u32, byte: u8, action: Action) -> u32 {
    match action {
        Action::InvalidSequence => 0,
        Action::EmitByte => accumulator,
        Action::SetByte1 => 0,
        Action::SetByte2 => accumulator | (continuation_bits(byte) << 6),
        Action::SetByte2Top => accumulator | (leading_bits_width_2(byte) << 6),
        Action::SetByte3 => accumulator | (continuation_bits(byte) << 12),
        Action::SetByte3Top => accumulator | (leading_bits_width_3(byte) << 12),
        Action::SetByte4 => accumulator | (leading_bits_width_4(byte) << 18),
    }
}

/// What the receiver is told when `action` is performed on `byte`, if
/// anything.
pub open spec fn emission(accumulator: u32, byte: u8, action: Action) -> Option<Event> {
    match action {
        Action::InvalidSequence => Some(Event::InvalidSequence),
        Action::EmitByte => Some(Event::Codepoint(byte as char)),
        Action::SetByte1 => Some(Event::Codepoint((accumulator | continuation_bits(byte)) as char)),
        _ => None,
    }
}

/// What a decoder remembers between two bytes.
pub struct Snapshot {
    /// The state of the automaton.
    pub state: State,
    /// The bits gathered so far of the code point under way.
    pub accumulator: u32,
}

impl Snapshot {
    /// A decoder that has not begun a sequence.
    pub open spec fn ground() -> Snapshot {
        Snapshot { state: State::Ground, accumulator: 0 }
    }

    /// Whether the accumulator holds what the state says has been consumed:
    /// nothing in the ground state, and otherwise the data bits of a prefix
    /// that some scalar value's encoding begins with, with the places of the
    /// bytes still owed left clear.
    pub open spec fn wf(self) -> bool {
        let acc = self.accumulator;
        match self.state {
            State::Ground => acc == 0,
            State::Tail3 => acc == 0x4_0000 || acc == 0x8_0000 || acc == 0xC_0000,
            State::Tail2 => acc % 0x1000 == 0 && (0x1000 <= acc <= 0xC000 || 0xE000 <= acc
                <= 0xF000 || 0x1_0000 <= acc <= 0x10_F000),
            State::Tail1 => acc % 0x40 == 0 && (0x80 <= acc <= 0xD7C0 || 0xE000 <= acc
                <= 0x10_FFC0),
            State::AfterE0 => acc == 0,
            State::AfterEd => acc == 0xD000,
            State::AfterF0 => acc == 0,
            State::AfterF4 => acc == 0x10_0000,
        }
    }

    /// The decoder after `byte`, and what the receiver was told.
    pub open spec fn step(self, byte: u8) -> (Snapshot, Option<Event>) {
        let (state, action) = transition(self.state, byte);
        (
            Snapshot { state, accumulator: accumulate(self.accumulator, byte, action) },
            emission(self.accumulator, byte, action),
        )
    }

    /// The decoder after `bytes`, and what the receiver was told, in order.
    pub open spec fn run(self, bytes: Seq<u8>) -> (Snapshot, Seq<Event>)
        decreases bytes.len(),
    {
        if bytes.len() == 0 {
            (self, Seq::empty())
        } else {
            let (before, told) = self.run(bytes.drop_last());
            let (after, event) = before.step(bytes.last());
            match event {
                Some(e) => (after, told.push(e)),
                None => (after, told),
            }
        }
    }
}

/// Where the places that a continuation byte's data bits go to are still
/// clear, setting them adds their value.
pub proof fn lemma_continuation_adds(accumulator: u32, byte: u8)
    by (bit_vector)
    ensures
        accumulator % 0x40 == 0 ==> (accumulator | continuation_bits(byte)) == accumulator + (
        byte as u32) % 0x40,
        accumulator % 0x1000 == 0 ==> (accumulator | (continuation_bits(byte) << 6))
            == accumulator + (((byte as u32) % 0x40) * 0x40) as u32,
        accumulator % 0x4_0000 == 0 ==> (accumulator | (continuation_bits(byte) << 12))
            == accumulator + (((byte as u32) % 0x40) * 0x1000) as u32,
{
}

/// What a leading byte leaves in an empty accumulator, as a number.
pub proof fn lemma_leading_value(byte: u8)
    by (bit_vector)
    ensures
        (0u32 | (leading_bits_width_2(byte) << 6)) == ((byte as u32) % 0x20) * 0x40,
        (0u32 | (leading_bits_width_3(byte) << 12)) == ((byte as u32) % 0x10) * 0x1000,
        (0u32 | (leading_bits_width_4(byte) << 18)) == ((byte as u32) % 0x08) * 0x4_0000,
{
}

/// A byte takes a well-formed decoder to a well-formed decoder, and a code
/// point that it completes is a scalar value.
pub proof fn lemma_step_wf(before: Snapshot, byte: u8)
    requires
        before.wf(),
    ensures
        before.step(byte).0.wf(),
        transition(before.state, byte).1 == Action::SetByte1 ==> is_scalar(
            before.accumulator | continuation_bits(byte),
        ),
{
    lemma_continuation_adds(before.accumulator, byte);
    lemma_leading_value(byte);
}

} // verus!
