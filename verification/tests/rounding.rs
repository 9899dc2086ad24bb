use num_rational::Ratio;
use num_traits::{One, Pow, Signed, Zero};

type Rational = Ratio<isize>;

fn r(numer: isize, denom: isize) -> Rational {
    Ratio::new_raw(numer, denom)
}

#[test]
fn test_round() {
    assert_eq!(r(1, 3).ceil(), r(1, 1));
    assert_eq!(r(1, 3).floor(), r(0, 1));
    assert_eq!(r(1, 3).round(), r(0, 1));
    assert_eq!(r(1, 3).trunc(), r(0, 1));

    assert_eq!(r(-1, 3).ceil(), r(0, 1));
    assert_eq!(r(-1, 3).floor(), -r(1, 1));
    assert_eq!(r(-1, 3).round(), r(0, 1));
    assert_eq!(r(-1, 3).trunc(), r(0, 1));

    assert_eq!(r(2, 3).ceil(), r(1, 1));
    assert_eq!(r(2, 3).floor(), r(0, 1));
    assert_eq!(r(2, 3).round(), r(1, 1));
    assert_eq!(r(2, 3).trunc(), r(0, 1));

    assert_eq!(r(-2, 3).ceil(), r(0, 1));
    assert_eq!(r(-2, 3).floor(), -r(1, 1));
    assert_eq!(r(-2, 3).round(), -r(1, 1));
    assert_eq!(r(-2, 3).trunc(), r(0, 1));

    assert_eq!(r(1, 2).ceil(), r(1, 1));
    assert_eq!(r(1, 2).floor(), r(0, 1));
    assert_eq!(r(1, 2).round(), r(1, 1));
    assert_eq!(r(1, 2).trunc(), r(0, 1));

    assert_eq!(r(-1, 2).ceil(), r(0, 1));
    assert_eq!(r(-1, 2).floor(), -r(1, 1));
    assert_eq!(r(-1, 2).round(), -r(1, 1));
    assert_eq!(r(-1, 2).trunc(), r(0, 1));

    assert_eq!(r(1, 1).ceil(), r(1, 1));
    assert_eq!(r(1, 1).floor(), r(1, 1));
    assert_eq!(r(1, 1).round(), r(1, 1));
    assert_eq!(r(1, 1).trunc(), r(1, 1));

    // Overflow checks

    let _neg1 = Ratio::from_integer(-1);
    let _large_rat1 = Ratio::new(i32::MAX, i32::MAX - 1);
    let _large_rat2 = Ratio::new(i32::MAX - 1, i32::MAX);
    let _large_rat3 = Ratio::new(i32::MIN + 2, i32::MIN + 1);
    let _large_rat4 = Ratio::new(i32::MIN + 1, i32::MIN + 2);
    let _large_rat5 = Ratio::new(i32::MIN + 2, i32::MAX);
    let _large_rat6 = Ratio::new(i32::MAX, i32::MIN + 2);
    let _large_rat7 = Ratio::new(1, i32::MIN + 1);
    let _large_rat8 = Ratio::new(1, i32::MAX);

    assert_eq!(_large_rat1.round(), One::one());
    assert_eq!(_large_rat2.round(), One::one());
    assert_eq!(_large_rat3.round(), One::one());
    assert_eq!(_large_rat4.round(), One::one());
    assert_eq!(_large_rat5.round(), _neg1);
    assert_eq!(_large_rat6.round(), _neg1);
    assert_eq!(_large_rat7.round(), Zero::zero());
    assert_eq!(_large_rat8.round(), Zero::zero());
}

fn check_pow(r: Rational, e: i32, expected: Rational) {
    assert_eq!(r.pow(e), expected);
    assert_eq!(Pow::pow(r, e), expected);
    assert_eq!(Pow::pow(r, &e), expected);
    assert_eq!(Pow::pow(&r, e), expected);
}

#[test]
fn test_pow() {
    check_pow(r(1, 2), 2, Ratio::new(1, 4));
    check_pow(r(1, 2), -2, Ratio::new(4, 1));
    check_pow(r(1, 1), 1, r(1, 1));
    check_pow(r(1, 1), i32::MAX, r(1, 1));
    check_pow(r(1, 1), i32::MIN, r(1, 1));
    check_pow(r(-1, 2), 2, r(1, 2).pow(2i32));
    check_pow(r(-1, 2), 3, -r(1, 2).pow(3i32));
    check_pow(r(3, 2), 0, r(1, 1));
    check_pow(r(3, 2), -1, r(3, 2).recip());
    check_pow(r(3, 2), 3, Ratio::new(27, 8));
}

#[test]
fn test_signed() {
    assert_eq!(r(-1, 2).abs(), r(1, 2));
    assert_eq!(r(3, 2).abs_sub(&r(1, 2)), r(1, 1));
    assert_eq!(r(1, 2).abs_sub(&r(3, 2)), Zero::zero());
    assert_eq!(r(1, 2).signum(), One::one());
    assert_eq!(r(-1, 2).signum(), -<Ratio<isize>>::one());
    assert_eq!(Signed::abs(&r(-1, 2)), r(1, 2));
    assert_eq!(r(0, 1).signum(), Zero::zero());
    assert!(r(-1, 2).is_negative());
    assert!(r(1, -2).is_negative());
    assert!(!r(-1, 2).is_positive());
    assert!(!r(1, -2).is_positive());
    assert!(r(1, 2).is_positive());
    assert!(r(-1, -2).is_positive());
    assert!(!r(1, 2).is_negative());
    assert!(!r(-1, -2).is_negative());
    assert!(!r(0, 1).is_positive());
    assert!(!r(0, 1).is_negative());
}
