//! Decimal text of signed 32-bit integers.
//!
//! A decimal integer is an optional minus sign followed by one or more of the
//! digits `0` to `9`, and nothing else: no plus sign, no blanks, no
//! separators. Leading zeros are allowed and do not change the value.

use crate::error::ParseError;
use vstd::prelude::*;
use vstd::string::*;

verus! {

/// The minus sign in ASCII.
const MINUS: u8 = 0x2d;

/// The digit `0` in ASCII.
const ZERO: u8 = 0x30;

/// The digit `9` in ASCII.
const NINE: u8 = 0x39;

/// Whether `c` is one of the digits `0` to `9`.
pub open spec fn is_digit(c: char) -> bool {
    '0' <= c && c <= '9'
}

/// The number that the digit `c` stands for.
pub open spec fn digit_value(c: char) -> nat
    recommends
        is_digit(c),
{
    (c as u32 - '0' as u32) as nat
}

/// Whether `s` holds digits only.
pub open spec fn all_digits(s: Seq<char>) -> bool {
    forall|i: int| 0 <= i < s.len() ==> is_digit(#[trigger] s[i])
}

/// The number that a sequence of digits stands for, the first digit being the
/// most significant. The empty sequence stands for zero.
pub open spec fn digits_value(s: Seq<char>) -> nat
    recommends
        all_digits(s),
    decreases s.len(),
{
    if s.len() == 0 {
        0
    } else {
        digits_value(s.drop_last()) * 10 + digit_value(s.last())
    }
}

/// Whether `s` begins with a minus sign.
pub open spec fn has_minus(s: Seq<char>) -> bool {
    s.len() > 0 && s[0] == '-'
}

/// What is left of `s` without its minus sign, where it has one.
pub open spec fn unsigned_part(s: Seq<char>) -> Seq<char> {
    if has_minus(s) {
        s.subrange(1, s.len() as int)
    } else {
        s
    }
}

/// Whether `s` is a decimal integer: an optional minus sign, then one or more
/// digits.
pub open spec fn is_decimal(s: Seq<char>) -> bool {
    unsigned_part(s).len() > 0 && all_digits(unsigned_part(s))
}

/// The integer that the decimal integer `s` stands for.
pub open spec fn decimal_value(s: Seq<char>) -> int
    recommends
        is_decimal(s),
{
    if has_minus(s) {
        -(digits_value(unsigned_part(s)) as int)
    } else {
        digits_value(unsigned_part(s)) as int
    }
}

/// Whether `v` is a signed 32-bit integer.
pub open spec fn fits_i32(v: int) -> bool {
    i32::MIN <= v <= i32::MAX
}

/// What parsing the text `s` gives: its value where `s` is a decimal integer
/// within the signed 32-bit range, and else the reason why there is none.
pub open spec fn parsed(s: Seq<char>) -> Result<i32, ParseError> {
    if !is_decimal(s) {
        Err(ParseError::Malformed)
    } else if !fits_i32(decimal_value(s)) {
        Err(ParseError::OutOfRange)
    } else {
        Ok(decimal_value(s) as i32)
    }
}

/// A text with a character outside ASCII is no decimal integer.
proof fn lemma_decimal_is_ascii(s: Seq<char>)
    requires
        is_decimal(s),
    ensures
        vstd::utf8::is_ascii_chars(s),
{
    assert forall|i: int| 0 <= i < s.len() implies '\0' <= #[trigger] s[i] <= '\u{7f}' by {
        if has_minus(s) {
            if i > 0 {
                assert(is_digit(unsigned_part(s)[i - 1]));
            }
        } else {
            assert(is_digit(unsigned_part(s)[i]));
        }
    }
}

/// Parses the decimal text of a signed 32-bit integer.
///
/// # Errors
///
/// `ParseError::Malformed` where `s` is not an optional minus sign followed by
/// one or more digits; `ParseError::OutOfRange` where it is, and its value is
/// below -2^31 or above 2^31 - 1.
pub fn parse_i32(s: &str) -> (r: Result<i32, ParseError>)
    ensures
        r == parsed(s@),
{
    broadcast use is_ascii_spec_bytes;

    if !s.is_ascii() {
        proof {
            if is_decimal(s@) {
                lemma_decimal_is_ascii(s@);
            }
        }
        return Err(ParseError::Malformed);
    }
    let bytes = s.as_bytes();
    let n: usize = bytes.len();
    let negative: bool = n > 0 && bytes[0] == MINUS;
    assert(negative == has_minus(s@));
    let start: usize = if negative { 1 } else { 0 };
    let ghost digits = unsigned_part(s@);
    assert(digits =~= s@.subrange(start as int, n as int));
    if start == n {
        return Err(ParseError::Malformed);
    }
    // The value of the digits read so far, as long as it is at most 2^31.
    let mut acc: u64 = 0;
    let mut over: bool = false;
    let mut i: usize = start;
    while i < n
        invariant
            start <= i <= n,
            n == s@.len(),
            n == bytes@.len(),
            vstd::utf8::is_ascii_chars(s@),
            forall|k: int| 0 <= k < n ==> bytes@[k] == s@[k] as u8,
            digits == unsigned_part(s@),
            digits == s@.subrange(start as int, n as int),
            all_digits(s@.subrange(start as int, i as int)),
            !over ==> acc == digits_value(s@.subrange(start as int, i as int)),
            !over ==> acc <= 0x8000_0000,
            over ==> digits_value(s@.subrange(start as int, i as int)) > 0x8000_0000,
        decreases n - i,
    {
        let b: u8 = bytes[i];
        let ghost c: char = s@[i as int];
        if b < ZERO || b > NINE {
            assert(!is_digit(c));
            assert(digits[i - start] == c);
            return Err(ParseError::Malformed);
        }
        let ghost before = s@.subrange(start as int, i as int);
        let ghost after = s@.subrange(start as int, i + 1);
        assert(after.drop_last() =~= before);
        if !over {
            acc = acc * 10 + (b - ZERO) as u64;
            if acc > 0x8000_0000u64 {
                over = true;
            }
        }
        i = i + 1;
    }
    assert(s@.subrange(start as int, i as int) == digits);
    if over {
        return Err(ParseError::OutOfRange);
    }
    if negative {
        Ok((0 - acc as i64) as i32)
    } else if acc <= 0x7fff_ffffu64 {
        Ok(acc as i32)
    } else {
        Err(ParseError::OutOfRange)
    }
}

} // verus!
