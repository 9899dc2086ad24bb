use num_rational::Ratio;
use std::cmp::Ordering;

type Rational = Ratio<isize>;

fn _0() -> Rational {
    Ratio::new_raw(0, 1)
}

fn _1() -> Rational {
    Ratio::new_raw(1, 1)
}

#[test]
fn test_cmp() {
    assert!(_0() == _0() && _1() == _1());
    assert!(_0() != _1() && _1() != _0());
    assert!(_0() < _1() && !(_1() < _0()));
    assert!(_1() > _0() && !(_0() > _1()));

    assert!(_0() <= _0() && _1() <= _1());
    assert!(_0() <= _1() && !(_1() <= _0()));

    assert!(_0() >= _0() && _1() >= _1());
    assert!(_1() >= _0() && !(_0() >= _1()));
}

fn check_cmp(a: Ratio<i8>, b: Ratio<i8>, ord: Ordering) {
    println!("comparing {:?} and {:?}", a, b);
    assert_eq!(a.cmp(&b), ord);
    assert_eq!(b.cmp(&a), ord.reverse());
}

#[test]
fn test_cmp_overflow() {
    // issue #7 example:
    let big = Ratio::new(128u8, 1);
    let small = big.recip();
    assert!(big > small);

    // try a few that are closer together
    // (some matching numer, some matching denom, some neither)
    let ratios = [
        Ratio::new(125_i8, 127_i8),
        Ratio::new(63_i8, 64_i8),
        Ratio::new(124_i8, 125_i8),
        Ratio::new(125_i8, 126_i8),
        Ratio::new(126_i8, 127_i8),
        Ratio::new(127_i8, 126_i8),
    ];

    for (i, &a) in ratios.iter().enumerate() {
        check_cmp(a, a, Ordering::Equal);
        check_cmp(-a, a, Ordering::Less);
        for &b in &ratios[i + 1..] {
            check_cmp(a, b, Ordering::Less);
            check_cmp(-a, -b, Ordering::Greater);
            check_cmp(a.recip(), b.recip(), Ordering::Greater);
            check_cmp(-a.recip(), -b.recip(), Ordering::Less);
        }
    }
}
