//! Error values shared by the codec layers.

use vstd::prelude::*;

verus! {

/// What can go wrong while reading or writing wire data.
#[derive(Clone, Debug, PartialEq)]
pub enum Error {
    /// Custom string-based error
    Custom(String),
    /// Parse error at a specified position
    Parse(String, usize),
    /// Unsupported shape for serialization
    Unsupported,
    /// A payload that is not valid UTF-8
    FromUtf8,
    Eof,
    UnexpectedEof,
    Syntax,
    ExpectedBoolean,
    ExpectedInteger,
    ExpectedString,
    ExpectedNull,
    ExpectedArray,
    ExpectedArrayComma,
    ExpectedArrayEnd,
    ExpectedMap,
    ExpectedMapColon,
    ExpectedMapComma,
    ExpectedMapEnd,
    ExpectedEnum,
    TrailingBytes,
}

impl Error {
    /// Error saying that a value of the given kind cannot stand at the top level.
    pub fn top_level(object: &str) -> (r: Error)
        ensures
            r matches Error::Custom(m) && m@ == "cannot deserialize "@ + object@
                + " at the top level. Try deserializing into a struct."@,
    {
        let mut m = String::from_str("cannot deserialize ");
        m.append(object);
        m.append(" at the top level. Try deserializing into a struct.");
        Error::Custom(m)
    }

    /// A parsing error message with the position it arose at.
    pub fn parse_err(msg: &str, position: usize) -> (r: Error)
        ensures
            r matches Error::Parse(m, p) && m@ == msg@ && p == position,
    {
        Error::Parse(msg.to_owned(), position)
    }
}

} // verus!
