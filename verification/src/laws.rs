//! What holds of the decoder on every input: that it never gets stuck, that
//! it finds its way back after an invalid sequence, that it reads
//! well-formed UTF-8 as `vstd::utf8` defines it, and that it accepts nothing
//! else.

use crate::model::{lemma_step_wf, Snapshot};
use crate::receiver::Event;
use crate::table::transition;
use crate::types::Action;
use vstd::prelude::*;
use vstd::utf8::{
    char_u32_cast, codepoint_width_1, codepoint_width_2, codepoint_width_3, codepoint_width_4,
    continuation_bits, decode_first_scalar, decode_utf8, decode_utf8_encode_utf8, encode_scalar,
    encode_utf8, encode_utf8_decode_utf8, encode_utf8_first_scalar, encode_utf8_valid_utf8,
    is_continuation_byte, is_leading_byte_width_1, is_leading_byte_width_2,
    is_leading_byte_width_3, is_leading_byte_width_4, leading_bits_width_2,
    leading_bits_width_3, leading_bits_width_4, length_of_first_scalar, not_overlong_encoding,
    not_surrogate, pop_first_scalar, valid_first_scalar, valid_utf8,
};

verus! {

/// The events that an optional event stands for: itself, or none.
pub open spec fn told(event: Option<Event>) -> Seq<Event> {
    match event {
        Some(e) => seq![e],
        None => Seq::empty(),
    }
}

/// Nothing is told of no bytes, and the decoder stays as it is.
pub proof fn lemma_run_empty(start: Snapshot)
    ensures
        start.run(Seq::empty()) == (start, Seq::<Event>::empty()),
{
}

/// A run over one more byte is the run so far and then one step.
pub proof fn lemma_run_push(start: Snapshot, bytes: Seq<u8>, byte: u8)
    ensures
        start.run(bytes.push(byte)) == (
            start.run(bytes).0.step(byte).0,
            start.run(bytes).1 + told(start.run(bytes).0.step(byte).1),
        ),
{
    assert(bytes.push(byte).drop_last() == bytes);
}

/// Bytes may come in any portions: a run over two portions on end is the run
/// over the first and then, from where that ended, the run over the second.
pub proof fn lemma_run_concat(start: Snapshot, first: Seq<u8>, second: Seq<u8>)
    ensures
        start.run(first + second) == (
            start.run(first).0.run(second).0,
            start.run(first).1 + start.run(first).0.run(second).1,
        ),
    decreases second.len(),
{
    if second.len() == 0 {
        assert(first + second == first);
    } else {
        lemma_run_concat(start, first, second.drop_last());
        assert((first + second).drop_last() == first + second.drop_last());
    }
}

/// A run from the first byte on: one step, and then the run over the rest.
pub proof fn lemma_run_first(start: Snapshot, bytes: Seq<u8>)
    requires
        bytes.len() > 0,
    ensures
        start.run(bytes) == (
            start.step(bytes[0]).0.run(bytes.drop_first()).0,
            told(start.step(bytes[0]).1) + start.step(bytes[0]).0.run(bytes.drop_first()).1,
        ),
{
    let head = seq![bytes[0]];
    assert(bytes == head + bytes.drop_first());
    lemma_run_concat(start, head, bytes.drop_first());
    assert(head == Seq::<u8>::empty().push(bytes[0]));
    lemma_run_push(start, Seq::empty(), bytes[0]);
}

/// Decoding never gets stuck: from a well-formed decoder every sequence of
/// bytes, well-formed or not, has its run, the run ends in a well-formed
/// decoder, and it tells the receiver at most one thing for each byte.
pub proof fn lemma_run_wf(start: Snapshot, bytes: Seq<u8>)
    requires
        start.wf(),
    ensures
        start.run(bytes).0.wf(),
        start.run(bytes).1.len() <= bytes.len(),
    decreases bytes.len(),
{
    if bytes.len() > 0 {
        lemma_run_wf(start, bytes.drop_last());
        lemma_step_wf(start.run(bytes.drop_last()).0, bytes.last());
    }
}

/// An invalid sequence always leaves the decoder in the ground state with an
/// empty accumulator, whatever it held before.
pub proof fn lemma_invalid_resets(before: Snapshot, byte: u8)
    ensures
        before.step(byte).1 == Some(Event::InvalidSequence) <==> transition(
            before.state,
            byte,
        ).1 == Action::InvalidSequence,
        before.step(byte).1 == Some(Event::InvalidSequence) ==> before.step(byte).0
            == Snapshot::ground(),
{
}

/// After an invalid sequence the decoder is ready for whatever follows: the
/// offending byte is told of once and dropped, and an ASCII byte right after
/// it is decoded as itself.
pub proof fn lemma_resynchronizes(before: Snapshot, offending: u8, ascii: u8)
    requires
        transition(before.state, offending).1 == Action::InvalidSequence,
        ascii <= 0x7F,
    ensures
        before.run(seq![offending, ascii]) == (
            Snapshot::ground(),
            seq![Event::InvalidSequence, Event::Codepoint(ascii as char)],
        ),
{
    let empty = Seq::<u8>::empty();
    lemma_run_empty(before);
    lemma_run_push(before, empty, offending);
    lemma_run_push(before, empty.push(offending), ascii);
    assert(seq![offending, ascii] == empty.push(offending).push(ascii));
}

/// An ASCII byte stands for its own number.
proof fn lemma_width_1(b1: u8)
    by (bit_vector)
    requires
        is_leading_byte_width_1(b1),
    ensures
        codepoint_width_1(b1) == b1 as u32,
{
}

/// Of a two-byte sequence: what the decoder gathers is the code point that
/// the bytes stand for, and the leading bytes that the grammar leaves out
/// are those of the overlong forms.
proof fn lemma_width_2(b1: u8, b2: u8)
    by (bit_vector)
    requires
        is_leading_byte_width_2(b1),
        is_continuation_byte(b2),
    ensures
        ((0u32 | (leading_bits_width_2(b1) << 6)) | continuation_bits(b2)) == codepoint_width_2(
            b1,
            b2,
        ),
        0xC2 <= b1 <==> not_overlong_encoding(codepoint_width_2(b1, b2), 2),
        not_surrogate(codepoint_width_2(b1, b2)),
{
}

/// Of a three-byte sequence: what the decoder gathers is the code point that
/// the bytes stand for, the second bytes that the grammar leaves out after
/// `0xE0` are those of the overlong forms, and those that it leaves out
/// after `0xED` are those of the surrogates.
proof fn lemma_width_3(b1: u8, b2: u8, b3: u8)
    by (bit_vector)
    requires
        is_leading_byte_width_3(b1),
        is_continuation_byte(b2),
        is_continuation_byte(b3),
    ensures
        (((0u32 | (leading_bits_width_3(b1) << 12)) | (continuation_bits(b2) << 6))
            | continuation_bits(b3)) == codepoint_width_3(b1, b2, b3),
        (b1 == 0xE0 ==> 0xA0 <= b2) <==> not_overlong_encoding(codepoint_width_3(b1, b2, b3), 3),
        (b1 == 0xED ==> b2 <= 0x9F) <==> not_surrogate(codepoint_width_3(b1, b2, b3)),
{
}

/// Of a four-byte sequence: what the decoder gathers is the code point that
/// the bytes stand for, and the leading and second bytes that the grammar
/// leaves out are those of the overlong forms and of the numbers beyond
/// `0x10FFFF`.
proof fn lemma_width_4(b1: u8, b2: u8, b3: u8, b4: u8)
    by (bit_vector)
    requires
        is_leading_byte_width_4(b1),
        is_continuation_byte(b2),
        is_continuation_byte(b3),
        is_continuation_byte(b4),
    ensures
        ((((0u32 | (leading_bits_width_4(b1) << 18)) | (continuation_bits(b2) << 12)) | (
        continuation_bits(b3) << 6)) | continuation_bits(b4)) == codepoint_width_4(
            b1,
            b2,
            b3,
            b4,
        ),
        ((b1 == 0xF0 ==> 0x90 <= b2) && b1 <= 0xF4 && (b1 == 0xF4 ==> b2 <= 0x8F))
            <==> not_overlong_encoding(codepoint_width_4(b1, b2, b3, b4), 4),
        not_overlong_encoding(codepoint_width_4(b1, b2, b3, b4), 4) ==> not_surrogate(
            codepoint_width_4(b1, b2, b3, b4),
        ),
{
}

/// The decoder reads one well-formed sequence as the standard does: it says
/// nothing until the last byte has come, then tells of the scalar value that
/// the sequence encodes, and is back in the ground state.
pub proof fn lemma_decodes_first_scalar(bytes: Seq<u8>)
    requires
        valid_first_scalar(bytes),
    ensures
        Snapshot::ground().run(bytes.take(length_of_first_scalar(bytes))) == (
            Snapshot::ground(),
            seq![Event::Codepoint(decode_first_scalar(bytes) as char)],
        ),
        forall|k: int|
            0 <= k < length_of_first_scalar(bytes) ==> (#[trigger] Snapshot::ground().run(
                bytes.take(k),
            )).1 == Seq::<Event>::empty(),
{
    let ground = Snapshot::ground();
    let n = length_of_first_scalar(bytes);
    assert(bytes.take(0) == Seq::<u8>::empty());
    assert forall|k: int| 0 <= k < n <= bytes.len() implies #[trigger] bytes.take(k + 1)
        == bytes.take(k).push(bytes[k]) by {}
    lemma_run_push(ground, bytes.take(0), bytes[0]);
    if is_leading_byte_width_1(bytes[0]) {
        lemma_width_1(bytes[0]);
    } else if is_leading_byte_width_2(bytes[0]) {
        lemma_width_2(bytes[0], bytes[1]);
        lemma_run_push(ground, bytes.take(1), bytes[1]);
    } else if is_leading_byte_width_3(bytes[0]) {
        lemma_width_3(bytes[0], bytes[1], bytes[2]);
        lemma_run_push(ground, bytes.take(1), bytes[1]);
        lemma_run_push(ground, bytes.take(2), bytes[2]);
    } else {
        lemma_width_4(bytes[0], bytes[1], bytes[2], bytes[3]);
        lemma_run_push(ground, bytes.take(1), bytes[1]);
        lemma_run_push(ground, bytes.take(2), bytes[2]);
        lemma_run_push(ground, bytes.take(3), bytes[3]);
    }
}

/// The events that tell of `chars`, one code point each, in order.
pub open spec fn codepoints(chars: Seq<char>) -> Seq<Event>
    decreases chars.len(),
{
    if chars.len() == 0 {
        Seq::empty()
    } else {
        codepoints(chars.drop_last()).push(Event::Codepoint(chars.last()))
    }
}

/// Telling of code points keeps their number and their order.
pub proof fn lemma_codepoints_index(chars: Seq<char>)
    ensures
        codepoints(chars).len() == chars.len(),
        forall|i: int|
            0 <= i < chars.len() ==> (#[trigger] codepoints(chars)[i]) == Event::Codepoint(
                chars[i],
            ),
    decreases chars.len(),
{
    if chars.len() > 0 {
        lemma_codepoints_index(chars.drop_last());
        char_u32_cast(chars.last(), chars.last() as u32);
    }
}

/// Whether none of `events` is an invalid sequence.
pub open spec fn all_codepoints(events: Seq<Event>) -> bool {
    forall|i: int| 0 <= i < events.len() ==> events[i] is Codepoint
}

/// Whether a decoder that starts in the ground state gets through `bytes`
/// without an invalid sequence and ends between two sequences.
pub open spec fn accepts(bytes: Seq<u8>) -> bool {
    let (end, events) = Snapshot::ground().run(bytes);
    end == Snapshot::ground() && all_codepoints(events)
}

/// The decoder reads well-formed UTF-8 as the standard does: it tells of the
/// scalar values that the bytes encode, one by one and in order, of nothing
/// else, and ends in the ground state.
pub proof fn lemma_decodes_valid(bytes: Seq<u8>)
    requires
        valid_utf8(bytes),
    ensures
        Snapshot::ground().run(bytes) == (Snapshot::ground(), codepoints(decode_utf8(bytes))),
        accepts(bytes),
    decreases bytes.len(),
{
    let ground = Snapshot::ground();
    lemma_codepoints_index(decode_utf8(bytes));
    if bytes.len() > 0 {
        let n = length_of_first_scalar(bytes);
        let rest = pop_first_scalar(bytes);
        let first = decode_first_scalar(bytes) as char;
        lemma_decodes_first_scalar(bytes);
        lemma_decodes_valid(rest);
        lemma_run_concat(ground, bytes.take(n), rest);
        lemma_codepoints_index(decode_utf8(rest));
        assert(bytes == bytes.take(n) + rest);
        assert(decode_utf8(bytes) == seq![first] + decode_utf8(rest));
        assert(codepoints(decode_utf8(bytes)) == seq![Event::Codepoint(first)] + codepoints(
            decode_utf8(rest),
        ));
    }
}

/// A concatenation is free of invalid sequences just where both its parts
/// are.
proof fn lemma_all_codepoints_concat(first: Seq<Event>, second: Seq<Event>)
    ensures
        all_codepoints(first + second) <==> all_codepoints(first) && all_codepoints(second),
{
    if all_codepoints(first + second) {
        assert forall|i: int| 0 <= i < first.len() implies first[i] is Codepoint by {
            assert((first + second)[i] == first[i]);
        }
        assert forall|i: int| 0 <= i < second.len() implies second[i] is Codepoint by {
            assert((first + second)[first.len() + i] == second[i]);
        }
    }
}

/// Where a run meets no invalid sequence, neither does its first step, nor
/// the run over the rest, which ends where the whole run ends.
proof fn lemma_peel(start: Snapshot, bytes: Seq<u8>)
    requires
        bytes.len() > 0,
        all_codepoints(start.run(bytes).1),
    ensures
        transition(start.state, bytes[0]).1 != Action::InvalidSequence,
        start.step(bytes[0]).0.run(bytes.drop_first()).0 == start.run(bytes).0,
        all_codepoints(start.step(bytes[0]).0.run(bytes.drop_first()).1),
{
    let (next, event) = start.step(bytes[0]);
    lemma_run_first(start, bytes);
    lemma_all_codepoints_concat(told(event), next.run(bytes.drop_first()).1);
    if event == Some(Event::InvalidSequence) {
        assert(told(event)[0] == Event::InvalidSequence);
    }
}

/// Where the decoder accepts a sequence of bytes, the sequence begins with
/// one well-formed encoding, and the decoder accepts what comes after it.
proof fn lemma_accepted_begins_valid(bytes: Seq<u8>)
    requires
        bytes.len() > 0,
        accepts(bytes),
    ensures
        valid_first_scalar(bytes),
        accepts(pop_first_scalar(bytes)),
{
    let ground = Snapshot::ground();
    let s1 = ground.step(bytes[0]).0;
    let rest1 = bytes.drop_first();
    lemma_peel(ground, bytes);
    if is_leading_byte_width_1(bytes[0]) {
        lemma_width_1(bytes[0]);
        assert(pop_first_scalar(bytes) == rest1);
    } else {
        // The sequence is not over after its leading byte.
        assert(rest1.len() > 0) by {
            if rest1.len() == 0 {
                assert(s1.run(rest1).0 == s1);
            }
        }
        let s2 = s1.step(bytes[1]).0;
        let rest2 = rest1.drop_first();
        lemma_peel(s1, rest1);
        if is_leading_byte_width_2(bytes[0]) {
            lemma_width_2(bytes[0], bytes[1]);
            assert(pop_first_scalar(bytes) == rest2);
        } else {
            assert(rest2.len() > 0) by {
                if rest2.len() == 0 {
                    assert(s2.run(rest2).0 == s2);
                }
            }
            let s3 = s2.step(bytes[2]).0;
            let rest3 = rest2.drop_first();
            lemma_peel(s2, rest2);
            if is_leading_byte_width_3(bytes[0]) {
                lemma_width_3(bytes[0], bytes[1], bytes[2]);
                assert(pop_first_scalar(bytes) == rest3);
            } else {
                assert(rest3.len() > 0) by {
                    if rest3.len() == 0 {
                        assert(s3.run(rest3).0 == s3);
                    }
                }
                lemma_peel(s3, rest3);
                lemma_width_4(bytes[0], bytes[1], bytes[2], bytes[3]);
                assert(pop_first_scalar(bytes) == rest3.drop_first());
            }
        }
    }
}

/// The decoder accepts well-formed UTF-8 and nothing else: it gets through
/// a sequence of bytes without an invalid sequence, and ends between two
/// sequences, just where the bytes are well-formed UTF-8.
pub proof fn lemma_accepts_just_valid(bytes: Seq<u8>)
    ensures
        accepts(bytes) <==> valid_utf8(bytes),
    decreases bytes.len(),
{
    if valid_utf8(bytes) {
        lemma_decodes_valid(bytes);
    }
    if accepts(bytes) && bytes.len() > 0 {
        lemma_accepted_begins_valid(bytes);
        lemma_accepts_just_valid(pop_first_scalar(bytes));
    }
}

/// Encoding a scalar value and decoding the bytes gives the scalar value
/// back: the decoder says nothing until the last byte of the encoding has
/// come, then tells of that scalar value and of nothing else, and is back in
/// the ground state.
pub proof fn lemma_round_trip(c: char)
    ensures
        Snapshot::ground().run(encode_scalar(c as u32)) == (
            Snapshot::ground(),
            seq![Event::Codepoint(c)],
        ),
        forall|k: int|
            0 <= k < encode_scalar(c as u32).len() ==> (#[trigger] Snapshot::ground().run(
                encode_scalar(c as u32).take(k),
            )).1 == Seq::<Event>::empty(),
{
    let bytes = encode_scalar(c as u32);
    assert(encode_utf8(seq![c]) == bytes) by {
        assert(encode_utf8(seq![c].drop_first()) == Seq::<u8>::empty());
    }
    encode_utf8_first_scalar(seq![c]);
    char_u32_cast(c, c as u32);
    lemma_decodes_first_scalar(bytes);
    assert(bytes.take(bytes.len() as int) == bytes);
}

/// Encoding a text and decoding the bytes gives the text back, one code
/// point for each scalar value and in order, and no invalid sequence.
pub proof fn lemma_round_trip_text(chars: Seq<char>)
    ensures
        Snapshot::ground().run(encode_utf8(chars)) == (Snapshot::ground(), codepoints(chars)),
{
    encode_utf8_valid_utf8(chars);
    encode_utf8_decode_utf8(chars);
    lemma_decodes_valid(encode_utf8(chars));
}

/// Telling of code points loses nothing: texts that are told of alike are
/// alike.
pub proof fn lemma_codepoints_injective(first: Seq<char>, second: Seq<char>)
    requires
        codepoints(first) == codepoints(second),
    ensures
        first == second,
{
    lemma_codepoints_index(first);
    lemma_codepoints_index(second);
    assert forall|i: int| 0 <= i < first.len() implies first[i] == second[i] by {
        assert(codepoints(first)[i] == Event::Codepoint(first[i]));
        assert(codepoints(second)[i] == Event::Codepoint(second[i]));
    }
}

/// The decoder reads nothing but encodings: where it tells of a text and of
/// nothing else, and ends in the ground state, the bytes are the UTF-8
/// encoding of that text. So no overlong form, no encoded surrogate and no
/// encoding of a number beyond `0x10FFFF` is ever read as a code point.
pub proof fn lemma_decodes_only_encodings(bytes: Seq<u8>, chars: Seq<char>)
    requires
        Snapshot::ground().run(bytes) == (Snapshot::ground(), codepoints(chars)),
    ensures
        bytes == encode_utf8(chars),
{
    lemma_codepoints_index(chars);
    lemma_accepts_just_valid(bytes);
    lemma_decodes_valid(bytes);
    lemma_codepoints_injective(decode_utf8(bytes), chars);
    decode_utf8_encode_utf8(bytes);
}

} // verus!
