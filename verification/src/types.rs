//! The vocabulary of the decoding automaton: its states, the actions a
//! transition can ask for, and the packing of one of each into a byte.

use vstd::prelude::*;

verus! {

/// Where the automaton stands between two bytes.
///
/// Besides the ground state there is one state for each number of
/// continuation bytes still owed, and one for each leading byte after which
/// the next byte is confined to a narrower range than `0x80..=0xBF`.
#[derive(Clone, Copy, Debug, PartialEq, Eq, Hash)]
pub enum State {
    /// Between sequences; any leading byte may follow.
    Ground,
    /// Three continuation bytes are owed.
    Tail3,
    /// Two continuation bytes are owed.
    Tail2,
    /// One continuation byte is owed.
    Tail1,
    /// After `0xE0`: the next byte must lie in `0xA0..=0xBF`.
    AfterE0,
    /// After `0xED`: the next byte must lie in `0x80..=0x9F`.
    AfterEd,
    /// After `0xF0`: the next byte must lie in `0x90..=0xBF`.
    AfterF0,
    /// After `0xF4`: the next byte must lie in `0x80..=0x8F`.
    AfterF4,
}

/// What the decoder does with a byte.
#[derive(Clone, Copy, Debug, PartialEq, Eq, Hash)]
pub enum Action {
    /// The byte fits nowhere; the sequence is invalid.
    InvalidSequence,
    /// The byte is ASCII and is emitted as it is.
    EmitByte,
    /// The byte is the last continuation byte; the code point is complete.
    SetByte1,
    /// The byte is the second-to-last continuation byte.
    SetByte2,
    /// The byte leads a two-byte sequence.
    SetByte2Top,
    /// The byte is the third-to-last continuation byte.
    SetByte3,
    /// The byte leads a three-byte sequence.
    SetByte3Top,
    /// The byte leads a four-byte sequence.
    SetByte4,
}

impl State {
    /// The number that stands for this state in a packed cell and selects its
    /// row of the transition table.
    pub open spec fn code(self) -> u8 {
        match self {
            State::Ground => 0,
            State::Tail3 => 1,
            State::Tail2 => 2,
            State::Tail1 => 3,
            State::AfterE0 => 4,
            State::AfterEd => 5,
            State::AfterF0 => 6,
            State::AfterF4 => 7,
        }
    }

    /// The row of the transition table that belongs to this state.
    pub fn index(self) -> (i: usize)
        ensures
            i == self.code(),
    {
        match self {
            State::Ground => 0,
            State::Tail3 => 1,
            State::Tail2 => 2,
            State::Tail1 => 3,
            State::AfterE0 => 4,
            State::AfterEd => 5,
            State::AfterF0 => 6,
            State::AfterF4 => 7,
        }
    }
}

impl Action {
    /// The number that stands for this action in a packed cell.
    pub open spec fn code(self) -> u8 {
        match self {
            Action::InvalidSequence => 0,
            Action::EmitByte => 1,
            Action::SetByte1 => 2,
            Action::SetByte2 => 3,
            Action::SetByte2Top => 4,
            Action::SetByte3 => 5,
            Action::SetByte3Top => 6,
            Action::SetByte4 => 7,
        }
    }
}

/// The cell that holds `state` in its low four bits and `action` in its high
/// four bits.
pub open spec fn pack(state: State, action: Action) -> u8 {
    (action.code() * 16 + state.code()) as u8
}

/// Whether `cell` is the packing of some state and action.
pub open spec fn is_packed(cell: u8) -> bool {
    cell % 16 < 8 && cell / 16 < 8
}

/// Every packed pair is a cell, and no two pairs share one.
pub proof fn lemma_pack_injective(s1: State, a1: Action, s2: State, a2: Action)
    ensures
        is_packed(pack(s1, a1)),
        pack(s1, a1) == pack(s2, a2) ==> s1 == s2 && a1 == a2,
{
}

/// Splits a cell into the state and the action it was packed from.
pub fn unpack(cell: u8) -> (pair: (State, Action))
    requires
        is_packed(cell),
    ensures
        pack(pair.0, pair.1) == cell,
{
    let low: u8 = cell & 0x0f;
    let high: u8 = cell >> 4;
    assert(low == cell % 16 && high == cell / 16) by (bit_vector)
        requires
            low == cell & 0x0f,
            high == cell >> 4,
    ;
    let state = match low {
        0 => State::Ground,
        1 => State::Tail3,
        2 => State::Tail2,
        3 => State::Tail1,
        4 => State::AfterE0,
        5 => State::AfterEd,
        6 => State::AfterF0,
        _ => State::AfterF4,
    };
    let action = match high {
        0 => Action::InvalidSequence,
        1 => Action::EmitByte,
        2 => Action::SetByte1,
        3 => Action::SetByte2,
        4 => Action::SetByte2Top,
        5 => Action::SetByte3,
        6 => Action::SetByte3Top,
        _ => Action::SetByte4,
    };
    (state, action)
}

} // verus!
