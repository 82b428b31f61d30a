//! A table-driven, streaming UTF-8 decoder.
//!
//! A [`Parser`] takes bytes one at a time and tells a [`Receiver`] of each
//! scalar value as soon as its last byte has come, and of each byte that can
//! neither begin nor extend a sequence. It holds one state and one
//! accumulator and looks nothing up but one cell of a table for each byte.
//!
//! - [`types`] holds the states and actions of the automaton and their
//!   packing into a byte.
//! - [`table`] holds the UTF-8 grammar as a transition function, the table
//!   that the decoder reads, and the proof that the two agree.
//! - [`receiver`] holds the events and the trait of those who are told of
//!   them.
//! - [`model`] holds the decoder as a mathematical object.
//! - [`parser`] holds the decoder.
//! - [`laws`] holds what is proved of the decoder on every input.

pub mod laws;
pub mod model;
pub mod parser;
pub mod receiver;
pub mod table;
pub mod types;

pub use parser::Parser;
pub use receiver::{Event, Receiver};
pub use types::{Action, State};
