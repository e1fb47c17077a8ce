//! The ways in which a conversion of a number can fail.

use vstd::prelude::*;

verus! {

/// A failed conversion between a [`crate::Num`] and an unsigned integer.
#[derive(Debug, Clone, Copy, PartialEq, Eq, Structural)]
pub enum Error {
    /// Unsigned integer overflows the number; holds the rejected integer.
    Overflow(u32),
    /// Unexpected negative value.
    Negative,
}

impl Error {
    /// The text that describes the error to a reader.
    pub open spec fn spec_message(self) -> Seq<char> {
        match self {
            Error::Overflow(_) => "unsigned integer overflows signed number"@,
            Error::Negative => "unexpected negative value"@,
        }
    }

    /// Describes the error in words.
    pub fn message(&self) -> (text: String)
        ensures
            text@ == self.spec_message(),
    {
        match self {
            Error::Overflow(_) => "unsigned integer overflows signed number".to_owned(),
            Error::Negative => "unexpected negative value".to_owned(),
        }
    }
}

/// A text that is not the decimal form of a signed 32-bit integer.
#[derive(Debug, Clone, Copy, PartialEq, Eq, Structural)]
pub enum ParseError {
    /// The text is not an optional minus sign followed by one or more decimal
    /// digits.
    Malformed,
    /// The text is a decimal integer below -2^31 or above 2^31 - 1.
    OutOfRange,
}

impl ParseError {
    /// The text that describes the error to a reader.
    pub open spec fn spec_message(self) -> Seq<char> {
        match self {
            ParseError::Malformed => "invalid decimal integer"@,
            ParseError::OutOfRange => "decimal integer out of the signed 32-bit range"@,
        }
    }

    /// Describes the error in words.
    pub fn message(&self) -> (text: String)
        ensures
            text@ == self.spec_message(),
    {
        match self {
            ParseError::Malformed => "invalid decimal integer".to_owned(),
            ParseError::OutOfRange => "decimal integer out of the signed 32-bit range".to_owned(),
        }
    }
}

} // verus!
