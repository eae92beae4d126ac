//! The JSON wire form used by the protocol: a value model, a serializer and
//! a parser, and the round-trip laws connecting them.

pub mod field;
pub mod num;
pub mod parse;
pub mod read;
pub mod roundtrip;
pub mod ser;
pub mod value;
