//! The number type and its conversions.

use crate::error::{Error, ParseError};
use crate::parse::{decimal_value, fits_i32, is_decimal, parse_i32, parsed};
use core::cmp::Ordering;
use vstd::prelude::*;

verus! {

/// A signed 32 bit integer type.
///
/// A `Num` stands for an integer within the range [-2^31, 2^31 - 1]: its view.
///
/// Numbers are equal where their views are equal, and ordered as their views
/// are.
#[derive(Copy, Clone, Debug, PartialEq, Eq, Structural, Ord, Hash)]
pub struct Num(i32);

impl View for Num {
    type V = int;

    closed spec fn view(&self) -> int {
        self.0 as int
    }
}

impl Num {
    /// The number that stands for `x`.
    pub closed spec fn spec_from_signed(x: i32) -> Num {
        Num(x)
    }

    /// The number that stands for `x`, where there is one.
    pub open spec fn spec_from_unsigned(x: u32) -> Result<Num, Error> {
        if x <= i32::MAX {
            Ok(Num::spec_from_signed(x as i32))
        } else {
            Err(Error::Overflow(x))
        }
    }

    /// The value as a signed integer.
    pub open spec fn spec_to_signed(self) -> i32 {
        self@ as i32
    }

    /// The value as an unsigned integer, where it is not negative.
    pub open spec fn spec_to_unsigned(self) -> Result<u32, Error> {
        if self@ < 0 {
            Err(Error::Negative)
        } else {
            Ok(self@ as u32)
        }
    }

    /// The distance of the value from zero.
    pub open spec fn spec_abs(self) -> u32 {
        if self@ < 0 {
            (-self@) as u32
        } else {
            self@ as u32
        }
    }

    /// The number that the text `s` stands for, where it is the decimal form
    /// of a signed 32-bit integer.
    pub open spec fn spec_from_str(s: Seq<char>) -> Result<Num, ParseError> {
        match parsed(s) {
            Ok(x) => Ok(Num::spec_from_signed(x)),
            Err(e) => Err(e),
        }
    }

    /// The view of a number lies in the signed 32-bit range.
    pub proof fn lemma_view_range(self)
        ensures
            i32::MIN <= self@ <= i32::MAX,
    {
    }

    /// Two numbers with the same view are the same number.
    pub proof fn lemma_view_injective(self, other: Num)
        requires
            self@ == other@,
        ensures
            self == other,
    {
    }

    /// The number made from `x` has the view `x`.
    pub proof fn lemma_from_signed_view(x: i32)
        ensures
            Num::spec_from_signed(x)@ == x,
    {
    }

    /// Constructs a new `Num` type from a signed integer.
    ///
    /// Every signed 32-bit integer has its number, so this cannot fail.
    pub fn from_signed(x: i32) -> (n: Num)
        ensures
            n == Num::spec_from_signed(x),
            n@ == x,
    {
        Num(x)
    }

    /// Constructs a new `Num` type from an unsigned integer.
    ///
    /// # Errors
    ///
    /// A `Num` has a maximum value of 2^31 - 1: for a greater `x` the result
    /// is `Error::Overflow(x)`.
    pub fn from_unsigned(x: u32) -> (r: Result<Num, Error>)
        ensures
            r == Num::spec_from_unsigned(x),
            x <= i32::MAX ==> r is Ok && r->Ok_0@ == x,
            x > i32::MAX ==> r == Err::<Num, Error>(Error::Overflow(x)),
    {
        if x <= 0x7fff_ffff {
            Ok(Num(x as i32))
        } else {
            Err(Error::Overflow(x))
        }
    }

    /// Returns the value of this number as a signed integer.
    pub fn to_signed(self) -> (x: i32)
        ensures
            x == self.spec_to_signed(),
            x == self@,
    {
        self.0
    }

    /// Returns the value of this number as a unsigned integer.
    ///
    /// # Errors
    ///
    /// For a negative number the result is `Error::Negative`.
    pub fn to_unsigned(self) -> (r: Result<u32, Error>)
        ensures
            r == self.spec_to_unsigned(),
            self@ >= 0 ==> r is Ok && r->Ok_0 == self@,
            self@ < 0 ==> r == Err::<u32, Error>(Error::Negative),
    {
        if self.0 < 0 {
            Err(Error::Negative)
        } else {
            Ok(self.0 as u32)
        }
    }

    /// Returns the absolute value of this number.
    ///
    /// The least number, -2^31, has the absolute value 2^31, which is why the
    /// result is unsigned.
    pub fn abs(self) -> (a: u32)
        ensures
            a == self.spec_abs(),
            a == vstd::math::abs(self@),
            a <= 0x8000_0000,
    {
        let wide: i64 = self.0 as i64;
        if wide < 0 {
            (0 - wide) as u32
        } else {
            wide as u32
        }
    }

    /// Parses a number from its decimal text: an optional minus sign followed
    /// by one or more digits, with nothing before, between or after them.
    ///
    /// # Errors
    ///
    /// `ParseError::Malformed` where `s` is no such text, and
    /// `ParseError::OutOfRange` where it is and stands for an integer below
    /// -2^31 or above 2^31 - 1.
    pub fn from_str(s: &str) -> (r: Result<Num, ParseError>)
        ensures
            r == Num::spec_from_str(s@),
            r is Ok <==> is_decimal(s@) && fits_i32(decimal_value(s@)),
            r is Ok ==> r->Ok_0@ == decimal_value(s@),
            !is_decimal(s@) ==> r == Err::<Num, ParseError>(ParseError::Malformed),
            is_decimal(s@) && !fits_i32(decimal_value(s@)) ==> r == Err::<Num, ParseError>(
                ParseError::OutOfRange,
            ),
    {
        match parse_i32(s) {
            Ok(x) => Ok(Num::from_signed(x)),
            Err(e) => Err(e),
        }
    }
}

impl PartialOrd for Num {
    /// Compares two numbers by their values. The order is total, so there is
    /// always an answer.
    fn partial_cmp(&self, other: &Num) -> (r: Option<Ordering>) {
        if self.0 < other.0 {
            Some(Ordering::Less)
        } else if self.0 > other.0 {
            Some(Ordering::Greater)
        } else {
            Some(Ordering::Equal)
        }
    }
}

impl vstd::std_specs::cmp::PartialOrdSpecImpl for Num {
    open spec fn obeys_partial_cmp_spec() -> bool {
        true
    }

    open spec fn partial_cmp_spec(&self, other: &Num) -> Option<Ordering> {
        if self@ < other@ {
            Some(Ordering::Less)
        } else if self@ > other@ {
            Some(Ordering::Greater)
        } else {
            Some(Ordering::Equal)
        }
    }
}

impl From<i32> for Num {
    fn from(x: i32) -> (n: Num) {
        Num::from_signed(x)
    }
}

impl vstd::std_specs::convert::FromSpecImpl<i32> for Num {
    open spec fn obeys_from_spec() -> bool {
        true
    }

    open spec fn from_spec(x: i32) -> Num {
        Num::spec_from_signed(x)
    }
}

impl TryFrom<u32> for Num {
    type Error = Error;

    fn try_from(x: u32) -> (r: Result<Num, Error>) {
        Num::from_unsigned(x)
    }
}

impl vstd::std_specs::convert::TryFromSpecImpl<u32> for Num {
    open spec fn obeys_try_from_spec() -> bool {
        true
    }

    open spec fn try_from_spec(x: u32) -> Result<Num, Error> {
        Num::spec_from_unsigned(x)
    }
}

impl core::str::FromStr for Num {
    type Err = ParseError;

    /// Parses a number from its decimal text, as [`Num::from_str`] does: this
    /// is what `str::parse` calls.
    ///
    /// # Errors
    ///
    /// `ParseError::Malformed` where `s` is not an optional minus sign
    /// followed by one or more digits, and `ParseError::OutOfRange` where it
    /// is and stands for an integer below -2^31 or above 2^31 - 1.
    fn from_str(s: &str) -> (r: Result<Num, ParseError>)
        ensures
            r == Num::spec_from_str(s@),
            r is Ok <==> is_decimal(s@) && fits_i32(decimal_value(s@)),
            r is Ok ==> r->Ok_0@ == decimal_value(s@),
            !is_decimal(s@) ==> r == Err::<Num, ParseError>(ParseError::Malformed),
            is_decimal(s@) && !fits_i32(decimal_value(s@)) ==> r == Err::<Num, ParseError>(
                ParseError::OutOfRange,
            ),
    {
        Num::from_str(s)
    }
}

} // verus!
