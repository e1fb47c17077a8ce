//! Comparing the parser of this library with the standard library's, one
//! input at a time.
//!
//! The standard library reads a signed integer more generously than
//! [`Num::from_str`] does: it also takes a plus sign before the digits. On
//! every other text the two agree, which [`lemma_agreement`] proves.

use crate::error::ParseError;
use crate::number::Num;
use crate::parse::{all_digits, digits_value, fits_i32, parsed};
use vstd::prelude::*;
use vstd::string::*;
use vstd::utf8::*;

verus! {

/// What one comparison found.
#[derive(Debug, Clone, Copy, PartialEq, Eq, Structural)]
pub enum Outcome {
    /// The bytes are not UTF-8, so there was no text to parse.
    Skipped,
    /// Both parsers refuse the text, or both give the same number.
    Agreed,
    /// One parser refuses what the other takes, or their numbers differ.
    Disagreed,
}

/// Whether `s` begins with a plus sign.
pub open spec fn has_plus(s: Seq<char>) -> bool {
    s.len() > 0 && s[0] == '+'
}

/// What the standard library's parser gives for the text `s` in base ten: it
/// takes an optional plus or minus sign followed by one or more digits, and
/// gives no value where the integer is outside the signed 32-bit range.
pub open spec fn std_parsed(s: Seq<char>) -> Option<i32> {
    if has_plus(s) {
        let digits = s.subrange(1, s.len() as int);
        if digits.len() > 0 && all_digits(digits) && fits_i32(digits_value(digits) as int) {
            Some(digits_value(digits) as i32)
        } else {
            None
        }
    } else {
        match parsed(s) {
            Ok(x) => Some(x),
            Err(_) => None,
        }
    }
}

/// How a result of [`Num::from_str`] compares with the reference's result for
/// the same text.
pub open spec fn compared(got: Result<Num, ParseError>, want: Option<i32>) -> Outcome {
    match want {
        None => if got is Err {
            Outcome::Agreed
        } else {
            Outcome::Disagreed
        },
        Some(x) => if got == Ok::<Num, ParseError>(Num::spec_from_signed(x)) {
            Outcome::Agreed
        } else {
            Outcome::Disagreed
        },
    }
}

/// What [`do_test`] finds on the bytes `data`.
pub open spec fn tested(data: Seq<u8>) -> Outcome {
    if valid_utf8(data) {
        compared(Num::spec_from_str(decode_utf8(data)), std_parsed(decode_utf8(data)))
    } else {
        Outcome::Skipped
    }
}

/// The two parsers disagree on a text exactly if it is a plus sign followed
/// by digits that stand for an integer of at most 2^31 - 1.
pub proof fn lemma_agreement(s: Seq<char>)
    ensures
        compared(Num::spec_from_str(s), std_parsed(s)) == if std_parsed(s) is Some && has_plus(s) {
            Outcome::Disagreed
        } else {
            Outcome::Agreed
        },
        !has_plus(s) ==> compared(Num::spec_from_str(s), std_parsed(s)) == Outcome::Agreed,
{
    if has_plus(s) {
        assert(!crate::parse::is_digit(s[0]));
        assert(crate::parse::unsigned_part(s)[0] == s[0]);
    }
}

/// `core::str::from_utf8`: the text that the bytes encode. The standard
/// library gives one exactly if the bytes are valid UTF-8, and the text then
/// has these bytes.
#[verifier::external_body]
fn utf8_text(data: &[u8]) -> (r: Option<&str>)
    ensures
        r is Some <==> valid_utf8(data@),
        r is Some ==> r->Some_0.spec_bytes() == data@,
{
    core::str::from_utf8(data).ok()
}

/// `i32::from_str_radix` in base ten: the integer that the text stands for.
/// The standard library documents the texts it takes as an optional plus or
/// minus sign followed by digits only, and fails on an empty text, on a sign
/// alone and on an integer outside the range of `i32`.
#[verifier::external_body]
fn parse_radix_ten(s: &str) -> (r: Option<i32>)
    ensures
        r == std_parsed(s@),
{
    i32::from_str_radix(s, 10).ok()
}

/// Compares a result of [`Num::from_str`] with the reference's result for the
/// same text.
pub fn compare(got: Result<Num, ParseError>, want: Option<i32>) -> (outcome: Outcome)
    ensures
        outcome == compared(got, want),
{
    match (got, want) {
        (Err(_), None) => Outcome::Agreed,
        (Ok(_), None) => Outcome::Disagreed,
        (Err(_), Some(_)) => Outcome::Disagreed,
        (Ok(n), Some(x)) => {
            if n == Num::from_signed(x) {
                Outcome::Agreed
            } else {
                Outcome::Disagreed
            }
        },
    }
}

/// Parses `data` as text with [`Num::from_str`] and with the standard
/// library's parser, and compares what they give.
///
/// Bytes that are not UTF-8 are skipped.
pub fn do_test(data: &[u8]) -> (outcome: Outcome)
    ensures
        outcome == tested(data@),
        !valid_utf8(data@) <==> outcome == Outcome::Skipped,
        valid_utf8(data@) && !has_plus(decode_utf8(data@)) ==> outcome == Outcome::Agreed,
{
    broadcast use encode_utf8_decode_utf8;

    match utf8_text(data) {
        None => Outcome::Skipped,
        Some(s) => {
            proof {
                assert(decode_utf8(encode_utf8(s@)) == s@);
                lemma_agreement(s@);
            }
            let got = Num::from_str(s);
            let want = parse_radix_ten(s);
            compare(got, want)
        },
    }
}

} // verus!
