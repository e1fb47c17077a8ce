use std::cmp::Ordering;

use num::{Error, Num};

#[test]
fn abs_handles_positive_value() {
    let x: i32 = 10;
    let num = Num::from_signed(x);
    let abs = num.abs();
    assert_eq!(abs, x as u32)
}

#[test]
fn abs_handles_negative_value() {
    let x: i32 = -10;
    let num = Num::from_signed(x);
    let abs = num.abs();
    assert_eq!(abs, -x as u32)
}

#[test]
fn abs_handles_zero() {
    let x: u32 = 0;
    let n = Num::from_unsigned(x).expect("0 is within range");
    assert_eq!(n.abs(), x)
}

#[test]
fn from_unsigned_i32_max() {
    let x = i32::MAX as u32;
    let n = Num::from_unsigned(x).expect("i32::MAX is within range");
    let got = n.to_unsigned().expect("i32::MAX is positive");
    assert_eq!(x, got)
}

#[test]
fn from_unsigned_overflow_error() {
    // This is bigger than maximum allowed value of a `Num`.
    let x = u32::MAX;

    match Num::from_unsigned(x) {
        Ok(_) => panic!("should have error for u32::MAX"),
        Err(Error::Overflow(got)) => assert_eq!(got, x),
        Err(_) => panic!("unexpected error,"),
    }
}

#[test]
fn to_unsigned_zero() {
    let x: u32 = 0;
    let n = Num::from_unsigned(x).expect("0 is within range");
    let got = n.to_unsigned().expect("0 is not negative");
    assert_eq!(got, x)
}

#[test]
fn signed_round_trip_on_samples() {
    for x in [i32::MIN, i32::MIN + 1, -10, -1, 0, 1, 10, i32::MAX - 1, i32::MAX] {
        assert_eq!(Num::from_signed(x).to_signed(), x);
    }
}

#[test]
fn unsigned_round_trip_on_samples() {
    for x in [0u32, 1, 10, 65_536, 2_147_483_646, 2_147_483_647] {
        let n = Num::from_unsigned(x).expect("within range");
        assert_eq!(n.to_signed(), x as i32);
        assert_eq!(n.to_unsigned(), Ok(x));
    }
}

#[test]
fn from_unsigned_boundary() {
    assert_eq!(
        Num::from_unsigned(2_147_483_647),
        Ok(Num::from_signed(i32::MAX))
    );
    assert_eq!(
        Num::from_unsigned(2_147_483_648),
        Err(Error::Overflow(2_147_483_648))
    );
    assert_eq!(
        Num::from_unsigned(4_294_967_295),
        Err(Error::Overflow(4_294_967_295))
    );
}

#[test]
fn to_unsigned_boundary() {
    assert_eq!(Num::from_signed(0).to_unsigned(), Ok(0));
    assert_eq!(Num::from_signed(-1).to_unsigned(), Err(Error::Negative));
    assert_eq!(Num::from_signed(i32::MIN).to_unsigned(), Err(Error::Negative));
    assert_eq!(Num::from_signed(i32::MAX).to_unsigned(), Ok(2_147_483_647));
}

#[test]
fn abs_of_least_number() {
    assert_eq!(Num::from_signed(i32::MIN).abs(), 2_147_483_648u32);
}

#[test]
fn abs_matches_unsigned_abs_on_samples() {
    for x in [i32::MIN, i32::MIN + 1, -65_536, -10, -1, 0, 1, 10, 65_536, i32::MAX] {
        assert_eq!(Num::from_signed(x).abs(), x.unsigned_abs());
    }
}

#[test]
fn from_and_try_from_are_the_constructors() {
    assert_eq!(Num::from(-7), Num::from_signed(-7));
    let n: Num = 12.into();
    assert_eq!(n.to_signed(), 12);
    assert_eq!(Num::try_from(7u32), Ok(Num::from_signed(7)));
    assert_eq!(Num::try_from(u32::MAX), Err(Error::Overflow(u32::MAX)));
}

#[test]
fn numbers_order_as_their_values() {
    assert!(Num::from_signed(-1) < Num::from_signed(0));
    assert!(Num::from_signed(i32::MIN) < Num::from_signed(i32::MAX));
    assert_eq!(Num::from_signed(5).max(Num::from_signed(3)), Num::from_signed(5));
    assert_ne!(Num::from_signed(5), Num::from_signed(-5));
}

#[test]
fn error_messages() {
    assert_eq!(
        Error::Overflow(3_000_000_000).message(),
        "unsigned integer overflows signed number"
    );
    assert_eq!(Error::Negative.message(), "unexpected negative value");
}

#[test]
fn comparison_follows_the_values() {
    let samples = [i32::MIN, -10, -1, 0, 1, 10, i32::MAX];
    for x in samples {
        for y in samples {
            let a = Num::from_signed(x);
            let b = Num::from_signed(y);
            assert_eq!(a == b, x == y);
            assert_eq!(a < b, x < y);
            assert_eq!(a <= b, x <= y);
            assert_eq!(a > b, x > y);
            assert_eq!(a >= b, x >= y);
            assert_eq!(a.partial_cmp(&b), Some(x.cmp(&y)));
            assert_eq!(a.cmp(&b), x.cmp(&y));
        }
    }
    assert_eq!(
        Num::from_signed(-1).partial_cmp(&Num::from_signed(0)),
        Some(Ordering::Less)
    );
}
