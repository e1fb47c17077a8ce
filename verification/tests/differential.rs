use num::differential::compare;
use num::{do_test, Num, Outcome, ParseError};

#[test]
fn skips_bytes_that_are_not_utf8() {
    assert_eq!(do_test(&[0xff, 0x31]), Outcome::Skipped);
    assert_eq!(do_test(&[0x31, 0xc3]), Outcome::Skipped);
    assert_eq!(do_test(&[0xed, 0xa0, 0x80]), Outcome::Skipped);
}

#[test]
fn agrees_on_decimal_text() {
    assert_eq!(do_test(b"10"), Outcome::Agreed);
    assert_eq!(do_test(b"-10"), Outcome::Agreed);
    assert_eq!(do_test(b"2147483647"), Outcome::Agreed);
    assert_eq!(do_test(b"-2147483648"), Outcome::Agreed);
    assert_eq!(do_test(b"000123"), Outcome::Agreed);
}

#[test]
fn agrees_on_refused_text() {
    assert_eq!(do_test(b""), Outcome::Agreed);
    assert_eq!(do_test(b"a"), Outcome::Agreed);
    assert_eq!(do_test(b"-"), Outcome::Agreed);
    assert_eq!(do_test(b"+"), Outcome::Agreed);
    assert_eq!(do_test(b"+-1"), Outcome::Agreed);
    assert_eq!(do_test(b"2147483648"), Outcome::Agreed);
    assert_eq!(do_test(b"+2147483648"), Outcome::Agreed);
    assert_eq!(do_test(b"-2147483649"), Outcome::Agreed);
    assert_eq!(do_test(b" 1"), Outcome::Agreed);
    assert_eq!(do_test("١٠".as_bytes()), Outcome::Agreed);
}

#[test]
fn disagrees_on_a_plus_sign_before_digits() {
    assert_eq!(do_test(b"+10"), Outcome::Disagreed);
    assert_eq!(do_test(b"+0"), Outcome::Disagreed);
    assert_eq!(do_test(b"+2147483647"), Outcome::Disagreed);
}

#[test]
fn compare_tells_agreement_from_disagreement() {
    let ten = Num::from_signed(10);
    assert_eq!(compare(Ok(ten), Some(10)), Outcome::Agreed);
    assert_eq!(compare(Ok(ten), Some(11)), Outcome::Disagreed);
    assert_eq!(compare(Ok(ten), None), Outcome::Disagreed);
    assert_eq!(compare(Err(ParseError::Malformed), Some(10)), Outcome::Disagreed);
    assert_eq!(compare(Err(ParseError::Malformed), None), Outcome::Agreed);
    assert_eq!(compare(Err(ParseError::OutOfRange), None), Outcome::Agreed);
}
