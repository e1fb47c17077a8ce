//! What holds of the conversions taken together.

use crate::error::ParseError;
use crate::number::Num;
use crate::parse::{decimal_value, fits_i32, is_decimal};
use core::cmp::Ordering;
use vstd::prelude::*;
use vstd::std_specs::cmp::PartialOrdSpec;

verus! {

/// A signed integer made into a number and back is the same integer.
pub proof fn signed_round_trip(x: i32)
    ensures
        Num::spec_from_signed(x).spec_to_signed() == x,
{
    Num::lemma_from_signed_view(x);
}

/// An unsigned integer of at most 2^31 - 1 has a number, and that number made
/// into an unsigned integer again is the same integer.
pub proof fn unsigned_round_trip(x: u32)
    requires
        x <= i32::MAX,
    ensures
        Num::spec_from_unsigned(x) is Ok,
        Num::spec_from_unsigned(x)->Ok_0.spec_to_unsigned() == Ok::<u32, crate::error::Error>(x),
{
    Num::lemma_from_signed_view(x as i32);
}

/// An unsigned integer has a number exactly if it is at most 2^31 - 1, and
/// the error for a greater one holds that integer.
pub proof fn unsigned_overflow_boundary(x: u32)
    ensures
        Num::spec_from_unsigned(x) is Ok <==> x <= 0x7fff_ffff,
        x > 0x7fff_ffff ==> Num::spec_from_unsigned(x) == Err::<Num, crate::error::Error>(
            crate::error::Error::Overflow(x),
        ),
{
}

/// A number can be made into an unsigned integer exactly if the signed
/// integer it was made from is not negative.
pub proof fn negativity_boundary(x: i32)
    ensures
        x >= 0 ==> Num::spec_from_signed(x).spec_to_unsigned() == Ok::<u32, crate::error::Error>(
            x as u32,
        ),
        x < 0 ==> Num::spec_from_signed(x).spec_to_unsigned() == Err::<u32, crate::error::Error>(
            crate::error::Error::Negative,
        ),
{
    Num::lemma_from_signed_view(x);
}

/// Numbers made from two signed integers are equal exactly if the integers
/// are equal.
pub proof fn equality_is_preserved(x: i32, y: i32)
    ensures
        Num::spec_from_signed(x) == Num::spec_from_signed(y) <==> x == y,
{
    Num::lemma_from_signed_view(x);
    Num::lemma_from_signed_view(y);
}

/// Numbers made from two signed integers are ordered as the integers are:
/// the first is less, equal or greater exactly if its integer is.
pub proof fn order_is_preserved(x: i32, y: i32)
    ensures
        Num::obeys_partial_cmp_spec(),
        Num::spec_from_signed(x).partial_cmp_spec(&Num::spec_from_signed(y)) == Some(
            Ordering::Less,
        ) <==> x < y,
        Num::spec_from_signed(x).partial_cmp_spec(&Num::spec_from_signed(y)) == Some(
            Ordering::Equal,
        ) <==> x == y,
        Num::spec_from_signed(x).partial_cmp_spec(&Num::spec_from_signed(y)) == Some(
            Ordering::Greater,
        ) <==> x > y,
{
    Num::lemma_from_signed_view(x);
    Num::lemma_from_signed_view(y);
}

/// The absolute value of the number made from `x` is the magnitude of `x`,
/// also for the least integer, -2^31, whose magnitude is 2^31.
pub proof fn abs_is_magnitude(x: i32)
    ensures
        Num::spec_from_signed(x).spec_abs() == vstd::math::abs(x as int),
        Num::spec_from_signed(x).spec_abs() <= 0x8000_0000,
{
    Num::lemma_from_signed_view(x);
}

/// A text has a number exactly if it is a decimal integer within the signed
/// 32-bit range, and that number is the one made from the integer that the
/// text stands for.
pub proof fn parse_agrees_with_from_signed(s: Seq<char>)
    ensures
        Num::spec_from_str(s) is Ok <==> is_decimal(s) && fits_i32(decimal_value(s)),
        is_decimal(s) && fits_i32(decimal_value(s)) ==> Num::spec_from_str(s) == Ok::<
            Num,
            ParseError,
        >(Num::spec_from_signed(decimal_value(s) as i32)),
{
}

} // verus!
