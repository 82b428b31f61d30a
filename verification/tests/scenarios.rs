use utf8parse::{Event, Parser, Receiver, State};

/// A receiver that keeps code points and invalid sequences apart.
struct Tally {
    codepoints: Vec<char>,
    invalid: usize,
}

impl Tally {
    fn new() -> Tally {
        Tally { codepoints: Vec::new(), invalid: 0 }
    }
}

impl Receiver for Tally {
    fn codepoint(&mut self, c: char) {
        self.codepoints.push(c);
    }

    fn invalid_sequence(&mut self) {
        self.invalid += 1;
    }
}

fn events_of(bytes: &[u8]) -> Vec<Event> {
    let mut parser = Parser::new();
    let mut events: Vec<Event> = Vec::new();
    for &byte in bytes {
        parser.advance(&mut events, byte);
    }
    events
}

fn tally_of(bytes: &[u8]) -> Tally {
    let mut parser = Parser::new();
    let mut tally = Tally::new();
    for &byte in bytes {
        parser.advance(&mut tally, byte);
    }
    tally
}

#[test]
fn new_parser_is_in_ground_state() {
    let parser = Parser::new();
    assert_eq!(parser.state(), State::Ground);
    assert_eq!(parser.accumulator(), 0);
}

#[test]
fn hello_yields_five_codepoints() {
    let tally = tally_of(&[0x48, 0x65, 0x6C, 0x6C, 0x6F]);
    assert_eq!(tally.codepoints, vec!['H', 'e', 'l', 'l', 'o']);
    assert_eq!(tally.invalid, 0);
}

#[test]
fn ascii_leaves_the_decoder_in_ground_state() {
    let mut parser = Parser::new();
    let mut events: Vec<Event> = Vec::new();
    for byte in 0x00..=0x7Fu8 {
        parser.advance(&mut events, byte);
        assert_eq!(parser.state(), State::Ground);
        assert_eq!(parser.accumulator(), 0);
        assert_eq!(events.last(), Some(&Event::Codepoint(byte as char)));
    }
    assert_eq!(events.len(), 128);
}

#[test]
fn euro_sign_is_silent_until_its_last_byte() {
    let mut parser = Parser::new();
    let mut tally = Tally::new();

    parser.advance(&mut tally, 0xE2);
    assert_eq!(tally.codepoints.len(), 0);
    assert_eq!(tally.invalid, 0);
    assert_eq!(parser.state(), State::Tail2);
    assert_eq!(parser.accumulator(), 0x2000);

    parser.advance(&mut tally, 0x82);
    assert_eq!(tally.codepoints.len(), 0);
    assert_eq!(tally.invalid, 0);
    assert_eq!(parser.state(), State::Tail1);
    assert_eq!(parser.accumulator(), 0x2080);

    parser.advance(&mut tally, 0xAC);
    assert_eq!(tally.codepoints, vec!['\u{20AC}']);
    assert_eq!(tally.invalid, 0);
    assert_eq!(parser.state(), State::Ground);
    assert_eq!(parser.accumulator(), 0);
}

#[test]
fn overlong_nul_is_rejected() {
    let mut parser = Parser::new();
    let mut tally = Tally::new();

    // 0xC0 can lead nothing but an overlong form: it is turned away at once.
    parser.advance(&mut tally, 0xC0);
    assert_eq!(tally.invalid, 1);
    assert_eq!(tally.codepoints.len(), 0);
    assert_eq!(parser.state(), State::Ground);

    // The continuation byte then has nothing to continue: each offending
    // byte is told of once.
    parser.advance(&mut tally, 0x80);
    assert_eq!(tally.invalid, 2);
    assert_eq!(tally.codepoints.len(), 0);
    assert_eq!(parser.state(), State::Ground);
}

#[test]
fn overlong_forms_never_yield_a_codepoint() {
    // '/' as two, three and four bytes, and NUL as two.
    for bytes in [
        &[0xC0u8, 0xAF][..],
        &[0xC1, 0xBF][..],
        &[0xE0, 0x80, 0xAF][..],
        &[0xE0, 0x9F, 0xBF][..],
        &[0xF0, 0x80, 0x80, 0xAF][..],
        &[0xF0, 0x8F, 0xBF, 0xBF][..],
        &[0xC0, 0x80][..],
    ] {
        let tally = tally_of(bytes);
        assert_eq!(tally.codepoints.len(), 0);
        assert!(tally.invalid >= 1);
    }
}

#[test]
fn surrogate_is_rejected() {
    let mut parser = Parser::new();
    let mut events: Vec<Event> = Vec::new();

    parser.advance(&mut events, 0xED);
    assert_eq!(events, vec![]);
    assert_eq!(parser.state(), State::AfterEd);
    assert_eq!(parser.accumulator(), 0xD000);

    parser.advance(&mut events, 0xA0);
    assert_eq!(events, vec![Event::InvalidSequence]);
    assert_eq!(parser.state(), State::Ground);
    assert_eq!(parser.accumulator(), 0);

    parser.advance(&mut events, 0x80);
    assert_eq!(events, vec![Event::InvalidSequence, Event::InvalidSequence]);

    let tally = tally_of(&[0xED, 0xA0, 0x80]);
    assert_eq!(tally.codepoints.len(), 0);
    assert!(tally.invalid >= 1);
}

#[test]
fn every_surrogate_is_rejected() {
    for second in 0xA0..=0xBFu8 {
        for third in 0x80..=0xBFu8 {
            let tally = tally_of(&[0xED, second, third]);
            assert_eq!(tally.codepoints.len(), 0);
            assert_eq!(tally.invalid, 2);
        }
    }
}

#[test]
fn lone_ff_is_one_invalid_sequence() {
    let mut parser = Parser::new();
    let mut tally = Tally::new();
    parser.advance(&mut tally, 0xFF);
    assert_eq!(tally.invalid, 1);
    assert_eq!(tally.codepoints.len(), 0);
    assert_eq!(parser.state(), State::Ground);
    assert_eq!(parser.accumulator(), 0);
}

#[test]
fn bytes_that_lead_nothing_are_invalid_at_once() {
    for byte in (0x80..=0xC1u8).chain(0xF5..=0xFF) {
        let mut parser = Parser::new();
        let mut events: Vec<Event> = Vec::new();
        parser.advance(&mut events, byte);
        assert_eq!(events, vec![Event::InvalidSequence]);
        assert_eq!(parser.state(), State::Ground);
        assert_eq!(parser.accumulator(), 0);
    }
}

#[test]
fn resynchronizes_after_an_invalid_byte() {
    assert_eq!(events_of(&[0xFF, 0x41]), vec![Event::InvalidSequence, Event::Codepoint('A')]);
    assert_eq!(
        events_of(&[0xE2, 0x28, 0x41]),
        vec![Event::InvalidSequence, Event::Codepoint('A')]
    );
    assert_eq!(
        events_of(&[0xF0, 0x9F, 0x98, 0x00, 0x7A]),
        vec![Event::InvalidSequence, Event::Codepoint('z')]
    );
}

#[test]
fn resynchronizes_from_every_state() {
    let prefixes: [&[u8]; 8] = [
        &[],
        &[0xF1],
        &[0xE1],
        &[0xC2],
        &[0xE0],
        &[0xED],
        &[0xF0],
        &[0xF4],
    ];
    for prefix in prefixes {
        let mut bytes = prefix.to_vec();
        bytes.push(0xFF);
        bytes.push(0x41);
        assert_eq!(events_of(&bytes), vec![Event::InvalidSequence, Event::Codepoint('A')]);
    }
}

#[test]
fn offending_byte_is_consumed() {
    // The ASCII byte that cuts a sequence short is itself the invalid
    // sequence; it is not read again as a code point.
    let mut parser = Parser::new();
    let mut events: Vec<Event> = Vec::new();
    parser.advance(&mut events, 0xE2);
    parser.advance(&mut events, 0x41);
    assert_eq!(events, vec![Event::InvalidSequence]);
    assert_eq!(parser.state(), State::Ground);
    assert_eq!(parser.accumulator(), 0);
    parser.advance(&mut events, 0x42);
    assert_eq!(events, vec![Event::InvalidSequence, Event::Codepoint('B')]);
}

#[test]
fn leading_byte_in_mid_sequence_is_consumed() {
    // A leading byte that arrives where a continuation byte is owed is
    // dropped; it does not open a sequence of its own.
    assert_eq!(
        events_of(&[0xE2, 0xC3, 0xA9]),
        vec![Event::InvalidSequence, Event::InvalidSequence]
    );
}

#[test]
fn shortest_and_longest_of_each_length() {
    assert_eq!(events_of(&[0x00]), vec![Event::Codepoint('\u{0}')]);
    assert_eq!(events_of(&[0x7F]), vec![Event::Codepoint('\u{7F}')]);
    assert_eq!(events_of(&[0xC2, 0x80]), vec![Event::Codepoint('\u{80}')]);
    assert_eq!(events_of(&[0xDF, 0xBF]), vec![Event::Codepoint('\u{7FF}')]);
    assert_eq!(events_of(&[0xE0, 0xA0, 0x80]), vec![Event::Codepoint('\u{800}')]);
    assert_eq!(events_of(&[0xED, 0x9F, 0xBF]), vec![Event::Codepoint('\u{D7FF}')]);
    assert_eq!(events_of(&[0xEE, 0x80, 0x80]), vec![Event::Codepoint('\u{E000}')]);
    assert_eq!(events_of(&[0xEF, 0xBF, 0xBF]), vec![Event::Codepoint('\u{FFFF}')]);
    assert_eq!(events_of(&[0xF0, 0x90, 0x80, 0x80]), vec![Event::Codepoint('\u{10000}')]);
    assert_eq!(events_of(&[0xF4, 0x8F, 0xBF, 0xBF]), vec![Event::Codepoint('\u{10FFFF}')]);
}

#[test]
fn beyond_the_last_scalar_value_is_rejected() {
    assert_eq!(
        events_of(&[0xF4, 0x90, 0x80, 0x80]),
        vec![
            Event::InvalidSequence,
            Event::InvalidSequence,
            Event::InvalidSequence,
        ]
    );
    assert_eq!(events_of(&[0xF5]), vec![Event::InvalidSequence]);
}

#[test]
fn accumulator_gathers_most_significant_first() {
    let mut parser = Parser::new();
    let mut events: Vec<Event> = Vec::new();

    // U+1F600 is 0xF0 0x9F 0x98 0x80.
    parser.advance(&mut events, 0xF0);
    assert_eq!((parser.state(), parser.accumulator()), (State::AfterF0, 0));
    parser.advance(&mut events, 0x9F);
    assert_eq!((parser.state(), parser.accumulator()), (State::Tail2, 0x1F000));
    parser.advance(&mut events, 0x98);
    assert_eq!((parser.state(), parser.accumulator()), (State::Tail1, 0x1F600));
    assert_eq!(events, vec![]);
    parser.advance(&mut events, 0x80);
    assert_eq!((parser.state(), parser.accumulator()), (State::Ground, 0));
    assert_eq!(events, vec![Event::Codepoint('\u{1F600}')]);

    // U+00E9 is 0xC3 0xA9.
    parser.advance(&mut events, 0xC3);
    assert_eq!((parser.state(), parser.accumulator()), (State::Tail1, 0xC0));
    parser.advance(&mut events, 0xA9);
    assert_eq!(events, vec![Event::Codepoint('\u{1F600}'), Event::Codepoint('\u{E9}')]);

    // U+40000 is 0xF1 0x80 0x80 0x80, U+100000 is 0xF4 0x80 0x80 0x80.
    parser.advance(&mut events, 0xF1);
    assert_eq!((parser.state(), parser.accumulator()), (State::Tail3, 0x4_0000));
    parser.advance(&mut events, 0xFF);
    parser.advance(&mut events, 0xF4);
    assert_eq!((parser.state(), parser.accumulator()), (State::AfterF4, 0x10_0000));
    parser.advance(&mut events, 0xFF);
    parser.advance(&mut events, 0xE0);
    assert_eq!((parser.state(), parser.accumulator()), (State::AfterE0, 0));
}

#[test]
fn invalid_sequence_clears_the_accumulator() {
    let mut parser = Parser::new();
    let mut events: Vec<Event> = Vec::new();
    parser.advance(&mut events, 0xF3);
    parser.advance(&mut events, 0xBF);
    assert_eq!((parser.state(), parser.accumulator()), (State::Tail2, 0xFF000));
    parser.advance(&mut events, 0x20);
    assert_eq!((parser.state(), parser.accumulator()), (State::Ground, 0));
    assert_eq!(events, vec![Event::InvalidSequence]);
    // Nothing of the abandoned sequence leaks into the next one.
    parser.advance(&mut events, 0xC2);
    parser.advance(&mut events, 0xA0);
    assert_eq!(events, vec![Event::InvalidSequence, Event::Codepoint('\u{A0}')]);
}

#[test]
fn bytes_may_come_in_any_portions() {
    let text = "a\u{E9}\u{20AC}\u{1F600}z";
    let whole = events_of(text.as_bytes());

    let mut parser = Parser::new();
    let mut events: Vec<Event> = Vec::new();
    for portion in text.as_bytes().chunks(3) {
        for &byte in portion {
            parser.advance(&mut events, byte);
        }
    }
    assert_eq!(events, whole);
    assert_eq!(
        whole,
        vec![
            Event::Codepoint('a'),
            Event::Codepoint('\u{E9}'),
            Event::Codepoint('\u{20AC}'),
            Event::Codepoint('\u{1F600}'),
            Event::Codepoint('z'),
        ]
    );
}

#[test]
fn vector_of_events_records_in_order() {
    let mut events: Vec<Event> = Vec::new();
    events.invalid_sequence();
    events.codepoint('x');
    events.codepoint('y');
    events.invalid_sequence();
    assert_eq!(
        events,
        vec![
            Event::InvalidSequence,
            Event::Codepoint('x'),
            Event::Codepoint('y'),
            Event::InvalidSequence,
        ]
    );
}
