use utf8parse::{Event, Parser, State};

fn decoded(bytes: &[u8]) -> (Vec<Event>, State, u32) {
    let mut parser = Parser::new();
    let mut events: Vec<Event> = Vec::new();
    for &byte in bytes {
        parser.advance(&mut events, byte);
    }
    (events, parser.state(), parser.accumulator())
}

/// Whether the decoder gets through `bytes` without an invalid sequence and
/// ends between two sequences.
fn accepted(bytes: &[u8]) -> bool {
    let (events, state, _) = decoded(bytes);
    state == State::Ground && !events.contains(&Event::InvalidSequence)
}

#[test]
fn every_scalar_value_round_trips() {
    let mut parser = Parser::new();
    let mut events: Vec<Event> = Vec::new();
    let mut scalars = 0u32;
    for number in 0..=0x10_FFFFu32 {
        let c = match char::from_u32(number) {
            Some(c) => c,
            None => {
                assert!((0xD800..=0xDFFF).contains(&number));
                continue;
            }
        };
        let mut buffer = [0u8; 4];
        let encoded = c.encode_utf8(&mut buffer).as_bytes();
        events.clear();
        for (at, &byte) in encoded.iter().enumerate() {
            assert_eq!(events.len(), 0);
            parser.advance(&mut events, byte);
            if at + 1 < encoded.len() {
                assert_ne!(parser.state(), State::Ground);
            }
        }
        assert_eq!(events.len(), 1);
        assert_eq!(events[0], Event::Codepoint(c));
        assert_eq!(parser.state(), State::Ground);
        assert_eq!(parser.accumulator(), 0);
        scalars += 1;
    }
    assert_eq!(scalars, 0x11_0000 - 0x800);
}

#[test]
fn text_round_trips() {
    let text = "Hello, w\u{F6}rld! \u{3BA}\u{1F79}\u{3C3}\u{3BC}\u{3B5} \u{20AC} \u{1D11E}\u{0}\u{10FFFF}";
    let (events, state, accumulator) = decoded(text.as_bytes());
    let expected: Vec<Event> = text.chars().map(Event::Codepoint).collect();
    assert_eq!(events, expected);
    assert_eq!(state, State::Ground);
    assert_eq!(accumulator, 0);
}

#[test]
fn accepts_just_the_well_formed_pairs() {
    for first in 0..=255u8 {
        for second in 0..=255u8 {
            let bytes = [first, second];
            assert_eq!(accepted(&bytes), std::str::from_utf8(&bytes).is_ok());
        }
    }
}

#[test]
fn accepts_just_the_well_formed_triples() {
    for first in 0xC0..=0xFFu8 {
        for second in 0..=255u8 {
            for third in 0..=255u8 {
                let bytes = [first, second, third];
                assert_eq!(accepted(&bytes), std::str::from_utf8(&bytes).is_ok());
            }
        }
    }
}

#[test]
fn accepts_just_the_well_formed_quadruples() {
    for first in 0xEC..=0xFFu8 {
        for second in (0x70..=0xC8u8).step_by(1) {
            for third in (0x78..=0xC4u8).step_by(3) {
                for fourth in (0x7E..=0xC1u8).step_by(1) {
                    let bytes = [first, second, third, fourth];
                    assert_eq!(accepted(&bytes), std::str::from_utf8(&bytes).is_ok());
                }
            }
        }
    }
}

#[test]
fn reads_what_the_standard_library_reads() {
    for first in 0xC2..=0xF4u8 {
        for second in 0x80..=0xBFu8 {
            for third in [0x80u8, 0x9F, 0xA0, 0xBF] {
                for fourth in [0x80u8, 0xBF] {
                    for length in 2..=4 {
                        let bytes = [first, second, third, fourth];
                        let bytes = &bytes[..length];
                        if let Ok(text) = std::str::from_utf8(bytes) {
                            let expected: Vec<Event> = text.chars().map(Event::Codepoint).collect();
                            assert_eq!(decoded(bytes).0, expected);
                        }
                    }
                }
            }
        }
    }
}

#[test]
fn cut_short_text_is_not_accepted() {
    let text = "\u{E9}\u{20AC}\u{1F600}";
    let bytes = text.as_bytes();
    for length in 0..=bytes.len() {
        let cut = &bytes[..length];
        assert_eq!(accepted(cut), std::str::from_utf8(cut).is_ok());
        let (events, _, _) = decoded(cut);
        assert!(!events.contains(&Event::InvalidSequence));
    }
}

#[test]
fn any_bytes_are_decoded_without_failure() {
    // A fixed stream of bytes of every kind, from a linear congruential
    // generator.
    let mut seed = 0x2545_F491u32;
    let mut parser = Parser::new();
    let mut events: Vec<Event> = Vec::new();
    let mut fed = 0usize;
    for _ in 0..200_000 {
        seed = seed.wrapping_mul(1_664_525).wrapping_add(1_013_904_223);
        let byte = (seed >> 24) as u8;
        let before = events.len();
        parser.advance(&mut events, byte);
        fed += 1;
        assert!(events.len() == before || events.len() == before + 1);
        if let Some(&Event::Codepoint(c)) = events.last() {
            assert!(!(0xD800..=0xDFFF).contains(&(c as u32)));
        }
        if parser.state() == State::Ground {
            assert_eq!(parser.accumulator(), 0);
        }
    }
    assert!(events.len() <= fed);
}

#[test]
fn every_byte_has_an_outcome_in_every_state() {
    let prefixes: [&[u8]; 8] = [
        &[],
        &[0xF1],
        &[0xE1],
        &[0xC2],
        &[0xE0],
        &[0xED],
        &[0xF0],
        &[0xF4],
    ];
    for prefix in prefixes {
        for byte in 0..=255u8 {
            let mut parser = Parser::new();
            let mut events: Vec<Event> = Vec::new();
            for &lead in prefix {
                parser.advance(&mut events, lead);
            }
            assert_eq!(events.len(), 0);
            parser.advance(&mut events, byte);
            assert!(events.len() <= 1);
            if events == vec![Event::InvalidSequence] {
                assert_eq!(parser.state(), State::Ground);
                assert_eq!(parser.accumulator(), 0);
            }
        }
    }
}
