//! A signed 32-bit number with checked conversions to and from unsigned
//! integers and decimal text.
//!
//! Every conversion is a pure function of its input. The contracts are stated
//! over the mathematical integer that a [`Num`] stands for (its view) and over
//! the sequence of characters of a text.

pub mod differential;
pub mod error;
pub mod laws;
pub mod number;
pub mod parse;

pub use differential::{do_test, Outcome};
pub use error::{Error, ParseError};
pub use number::Num;
