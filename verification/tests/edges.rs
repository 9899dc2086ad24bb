use num_bigint::BigInt;
use num_rational::{Arith, Backing, Ratio};
use num_traits::Inv;
use std::cmp::Ordering;
use std::collections::hash_map::DefaultHasher;
use std::convert::TryFrom;
use std::hash::{Hash, Hasher};

fn hash<T: Hash>(x: &T) -> u64 {
    let mut hasher = DefaultHasher::new();
    x.hash(&mut hasher);
    hasher.finish()
}

fn big(n: i64, d: i64) -> Ratio<BigInt> {
    Ratio::new(BigInt::from(n), BigInt::from(d))
}

#[test]
fn reduce_once_is_reduce_twice() {
    for n in -40i32..40 {
        for d in -12i32..12 {
            if d != 0 {
                let once = Ratio::new_raw(n, d).reduced();
                let twice = once.reduced();
                assert_eq!(once.into_pair(), twice.into_pair());
                assert!(*once.denom() > 0);
                assert_eq!(Ratio::new(n, d).into_pair(), once.into_pair());
            }
        }
    }
    assert_eq!(Ratio::new_raw(6i32, -4).reduced().into_pair(), (-3, 2));
    assert_eq!(Ratio::new(0i32, -7).into_pair(), (0, 1));
    assert_eq!(Ratio::new(-128i8, 64).into_pair(), (-2, 1));
    assert_eq!(Ratio::new(2i8, -128).into_pair(), (-1, 64));
    assert_eq!(Ratio::new(200u8, 250).into_pair(), (4, 5));
}

#[test]
fn checked_new_tells_what_the_type_cannot_hold() {
    assert_eq!(Ratio::checked_new(1i8, 0), None);
    assert_eq!(Ratio::checked_new(4i8, -6).map(Ratio::into_pair), Some((-2, 3)));
    // the greatest common divisor 128 is no i8
    assert_eq!(Ratio::checked_new(-128i8, -128), None);
    assert_eq!(Ratio::checked_new(0i8, -128), None);
    // -128 / -1 would be 128 / 1
    assert_eq!(Ratio::checked_new(-128i8, -1), None);
    assert_eq!(Ratio::checked_new(1i8, -128), None);
    assert_eq!(Ratio::checked_new(-128i8, 1).map(Ratio::into_pair), Some((-128, 1)));
    assert_eq!(Ratio::checked_new(-128i8, -2).map(Ratio::into_pair), Some((64, 1)));
    assert_eq!(Ratio::checked_new(-128i8, -64).map(Ratio::into_pair), Some((2, 1)));
    assert_eq!(Ratio::checked_new(64i8, -128).map(Ratio::into_pair), Some((-1, 2)));
    assert_eq!(
        Ratio::checked_new(BigInt::from(i64::MIN), BigInt::from(-1)).map(Ratio::into_pair),
        Some((BigInt::from(1u64 << 63), BigInt::from(1)))
    );
}

#[test]
fn from_raw_pair_turns_a_zero_denominator_down() {
    assert_eq!(Ratio::from_raw_pair((3i32, 0)), None);
    assert_eq!(Ratio::from_raw_pair((4i32, -6)).map(Ratio::into_pair), Some((4, -6)));
}

#[test]
fn equal_values_compare_equal_and_hash_alike() {
    let a = Ratio::new_raw(4i32, 2);
    let b = Ratio::new_raw(6i32, 3);
    assert!(a == b);
    assert_eq!(a.cmp(&b), Ordering::Equal);
    assert_eq!(hash(&a), hash(&b));
    assert_eq!(a.hash_terms(), vec![2, 0]);
    assert_eq!(b.hash_terms(), vec![2, 0]);
    for n in -20i32..20 {
        for d in 1i32..8 {
            for k in [-3i32, -1, 2, 5] {
                let x = Ratio::new_raw(n, d);
                let y = Ratio::new_raw(n * k, d * k);
                assert_eq!(x.hash_terms(), y.hash_terms());
                assert_eq!(hash(&x), hash(&y));
                assert!(x == y, "{:?} {:?}", x, y);
                assert_eq!(x.cmp(&y), Ordering::Equal);
            }
        }
    }
    assert_eq!(big(4, 2), big(6, 3));
    assert_eq!(hash(&big(4, 2)), hash(&big(-6, -3)));
}

#[test]
fn hash_terms_are_the_continued_fraction() {
    // 415/93 is [4; 2, 6, 7]
    assert_eq!(Ratio::new_raw(415i32, 93).hash_terms(), vec![4, 2, 6, 7, 0]);
    assert_eq!(Ratio::new_raw(-7i32, 2).hash_terms(), vec![-4, 2, 0]);
    assert_eq!(Ratio::new_raw(0i32, 5).hash_terms(), vec![0, 0]);
    // 128 is no i8: the pair stands in for the quotient
    assert_eq!(Ratio::new_raw(-128i8, -1).hash_terms(), vec![-128, -1]);
    assert_eq!(Ratio::new_raw(-1i8, -128).hash_terms(), vec![0, -128, -1]);
    assert_eq!(
        Ratio::new_raw(BigInt::from(-128), BigInt::from(-1)).hash_terms(),
        vec![BigInt::from(128), BigInt::from(0)]
    );
}

#[test]
fn comparison_is_the_order_of_the_values() {
    let pairs: Vec<(i32, i32)> = (-6..7)
        .flat_map(|n| (-4..5).filter(|d| *d != 0).map(move |d| (n, d)))
        .collect();
    for &(n1, d1) in &pairs {
        for &(n2, d2) in &pairs {
            let a = Ratio::new_raw(n1, d1);
            let b = Ratio::new_raw(n2, d2);
            let left = (n1 * d2) as i64 * (d1 * d2).signum() as i64;
            let right = (n2 * d1) as i64 * (d1 * d2).signum() as i64;
            assert_eq!(a.cmp(&b), left.cmp(&right), "{:?} {:?}", a, b);
            assert_eq!(b.cmp(&a), a.cmp(&b).reverse());
            assert_eq!(a.partial_cmp(&b), Some(left.cmp(&right)));
            assert_eq!(a == b, n1 * d2 == n2 * d1);
        }
    }
}

#[test]
fn comparison_on_equal_numerators_goes_by_the_values() {
    assert_eq!(Ratio::new_raw(1i32, 2).cmp(&Ratio::new_raw(1, 3)), Ordering::Greater);
    assert_eq!(Ratio::new_raw(-1i32, 2).cmp(&Ratio::new_raw(-1, 3)), Ordering::Less);
    // zero over anything is zero
    assert_eq!(Ratio::new_raw(0i32, 1).cmp(&Ratio::new_raw(0, 2)), Ordering::Equal);
    assert_eq!(Ratio::new_raw(0i32, 2).cmp(&Ratio::new_raw(0, 3)), Ordering::Equal);
    assert_eq!(Ratio::new_raw(0i32, -2).cmp(&Ratio::new_raw(0, 3)), Ordering::Equal);
    assert!(Ratio::new_raw(0i32, 2) == Ratio::new_raw(0, 3));
    assert!(Ratio::new_raw(0u8, 255) == Ratio::new_raw(0, 1));
    // denominators on two sides of zero
    assert_eq!(Ratio::new_raw(1i32, -2).cmp(&Ratio::new_raw(1, 2)), Ordering::Less);
    assert_eq!(Ratio::new_raw(1i32, 2).cmp(&Ratio::new_raw(1, -2)), Ordering::Greater);
    assert_eq!(Ratio::new_raw(1i32, -2).cmp(&Ratio::new_raw(1, 3)), Ordering::Less);
    assert_eq!(Ratio::new_raw(-1i32, -2).cmp(&Ratio::new_raw(-1, 3)), Ordering::Greater);
    assert_eq!(Ratio::new_raw(-1i32, 2).cmp(&Ratio::new_raw(-1, -3)), Ordering::Less);
    assert_eq!(Ratio::new_raw(i8::MIN, i8::MIN).cmp(&Ratio::new_raw(i8::MIN, 127)), Ordering::Greater);
    // equal denominators: the numerators decide, reversed under a negative one
    assert_eq!(Ratio::new_raw(1i32, -2).cmp(&Ratio::new_raw(3, -2)), Ordering::Greater);
}

#[test]
fn a_raw_ratio_is_kept_as_it_is_given() {
    let r = Ratio::new_raw(4isize, -2);
    assert_eq!(r.numer(), &4);
    assert_eq!(r.denom(), &-2);
    // nothing is looked at, not even the denominator
    let z = Ratio::new_raw(1isize, 0);
    assert_eq!(z.numer(), &1);
    assert_eq!(z.denom(), &0);
    assert_eq!(z.into_pair(), (1, 0));
    assert!(!z.is_integer());
    assert!(!z.is_zero());
    assert_eq!(z.to_string(), "1/0");
    assert_eq!(z.hash_terms(), vec![0]);
    assert_eq!(z.clone().into_pair(), (1, 0));
    assert_eq!((-z).into_pair(), (-1, 0));
    assert_eq!(z.recip().into_pair(), (0, 1));
    assert_eq!(Ratio::new_raw(0isize, 3).pow(-2).into_pair(), (9, 0));
    assert_eq!(Ratio::new_raw(BigInt::from(1), BigInt::from(0)).to_string(), "1/0");
    // comparing one takes the cross products as they are, and does not divide
    assert_eq!(z.cmp(&z), Ordering::Equal);
    assert!(z == Ratio::new_raw(5, 0));
    assert_eq!(z.cmp(&Ratio::new_raw(1, 2)), Ordering::Less);
    assert_eq!(Ratio::new_raw(1isize, 2).cmp(&z), Ordering::Greater);
    assert_eq!(Ratio::new_raw(-1isize, 0).cmp(&Ratio::new_raw(1, 2)), Ordering::Greater);
    assert_eq!(Ratio::new_raw(0isize, 0).cmp(&Ratio::new_raw(1, -2)), Ordering::Equal);
    assert_eq!(z.cmp(&Ratio::new_raw(1, -2)), Ordering::Less);
    assert_eq!(Ratio::new_raw(i8::MIN, 0).cmp(&Ratio::new_raw(i8::MIN, -1)), Ordering::Greater);
}

#[test]
fn comparison_never_overflows() {
    let least = Ratio::new_raw(i8::MIN, -1);
    assert_eq!(least.cmp(&Ratio::new_raw(127, 1)), Ordering::Greater);
    assert_eq!(Ratio::new_raw(127i8, 1).cmp(&least), Ordering::Less);
    assert_eq!(least.cmp(&Ratio::new_raw(i8::MIN, -1)), Ordering::Equal);
    assert_eq!(least.cmp(&Ratio::new_raw(i8::MIN, 1)), Ordering::Greater);
    // 1/128 against 1/100, by way of -128/-1 against 100/1
    let a = Ratio::new_raw(-1i8, i8::MIN);
    let b = Ratio::new_raw(1i8, 100);
    assert_eq!(a.cmp(&b), Ordering::Less);
    assert_eq!(b.cmp(&a), Ordering::Greater);
    assert!(a != b);
    let big = Ratio::new(128u8, 1);
    let small = big.recip();
    assert_eq!(small.into_pair(), (1, 128));
    assert!(big > small);
    assert!(Ratio::new_raw(i64::MIN, i64::MAX) < Ratio::new_raw(i64::MAX, i64::MIN + 1));
}

#[test]
fn trunc_and_fract_add_up() {
    for n in -25isize..25 {
        for d in 1isize..9 {
            let a = Ratio::new(n, d);
            assert_eq!(a, a.trunc() + a.fract());
            let raw = Ratio::new_raw(n, d);
            assert_eq!((raw.trunc() + raw.fract()).into_pair(), a.into_pair());
            assert_eq!(raw, raw.trunc() + raw.fract());
            assert_eq!(raw, raw.reduced());
        }
    }
    let a = Ratio::new_raw(-7isize, 2);
    assert_eq!(a.trunc().into_pair(), (-3, 1));
    assert_eq!(a.fract().into_pair(), (-1, 2));
    assert_eq!(a.to_integer(), -3);
    let b = Ratio::new_raw(7isize, -2);
    assert_eq!(b.trunc().into_pair(), (-3, 1));
    assert_eq!(b.fract().into_pair(), (1, -2));
    let zero = Ratio::new_raw(0isize, 2);
    assert_eq!(zero.trunc() + zero.fract(), zero);
}

#[test]
fn rounding_under_a_negative_denominator() {
    let a = Ratio::new_raw(1i32, -2);
    assert_eq!(a.floor().into_pair(), (-1, 1));
    assert_eq!(a.ceil().into_pair(), (0, 1));
    assert_eq!(a.round().into_pair(), (-1, 1));
    let b = Ratio::new_raw(-1i32, -4);
    assert_eq!(b.floor().into_pair(), (0, 1));
    assert_eq!(b.ceil().into_pair(), (1, 1));
    assert_eq!(b.round().into_pair(), (0, 1));
    let c = Ratio::new_raw(-3i32, -4);
    assert_eq!(c.round().into_pair(), (1, 1));
    let d = Ratio::new_raw(5i8, i8::MIN);
    assert_eq!(d.floor().into_pair(), (-1, 1));
    assert_eq!(d.ceil().into_pair(), (0, 1));
    assert_eq!(d.round().into_pair(), (0, 1));
    let e = Ratio::new_raw(64i8, i8::MIN);
    assert_eq!(e.round().into_pair(), (-1, 1));
    let f = Ratio::new_raw(-63i8, i8::MIN);
    assert_eq!(f.round().into_pair(), (0, 1));
}

#[test]
fn rounding_at_the_halves() {
    for (n, d, want) in [
        (5i32, 2, 3),
        (-5, 2, -3),
        (7, 2, 4),
        (1, 2, 1),
        (-1, 2, -1),
        (2, 4, 1),
        (7, 3, 2),
        (8, 3, 3),
        (-7, 3, -2),
        (-8, 3, -3),
        (49, 100, 0),
        (50, 100, 1),
        (-50, 100, -1),
        (3, 1, 3),
        (0, 9, 0),
    ] {
        assert_eq!(Ratio::new_raw(n, d).round().into_pair(), (want, 1), "{}/{}", n, d);
    }
    assert_eq!(Ratio::new_raw(127u8, 2).round().into_pair(), (64, 1));
    assert_eq!(Ratio::new_raw(255u8, 254).round().into_pair(), (1, 1));
    assert_eq!(Ratio::new_raw(127u8, 255).round().into_pair(), (0, 1));
    assert_eq!(Ratio::new_raw(128u8, 255).round().into_pair(), (1, 1));
    assert_eq!(Ratio::new_raw(i8::MIN, 127).round().into_pair(), (-1, 1));
    assert_eq!(big(7, 2).round(), big(4, 1));
    assert_eq!(big(-7, 2).round(), big(-4, 1));
    assert_eq!(big(7, 3).round(), big(2, 1));
}

#[test]
fn floor_and_ceil_of_whole_and_broken_values() {
    for (n, d, lo, hi) in [
        (7i64, 2, 3, 4),
        (-7, 2, -4, -3),
        (6, 2, 3, 3),
        (-6, 2, -3, -3),
        (0, 5, 0, 0),
        (1, 1000, 0, 1),
        (-1, 1000, -1, 0),
    ] {
        assert_eq!(Ratio::new_raw(n, d).floor().into_pair(), (lo, 1));
        assert_eq!(Ratio::new_raw(n, d).ceil().into_pair(), (hi, 1));
    }
    assert_eq!(Ratio::new_raw(i64::MIN, 3).floor().into_pair(), (-3074457345618258603, 1));
    assert_eq!(Ratio::new_raw(i64::MAX, 2).ceil().into_pair(), (4611686018427387904, 1));
    assert_eq!(big(-7, 2).floor(), big(-4, 1));
    assert_eq!(big(-7, 2).ceil(), big(-3, 1));
}

#[test]
fn checked_arithmetic_gives_the_exact_result_or_none() {
    let a = Ratio::new(100i8, 3);
    let b = Ratio::new(1i8, 3);
    assert_eq!(a.checked_add(&b), None);
    assert_eq!(a.checked_mul(&b).map(Ratio::into_pair), Some((100, 9)));
    assert_eq!(a.checked_mul(&a), None);
    let c = Ratio::new(5i8, 6);
    let d = Ratio::new(1i8, 6);
    assert_eq!(c.checked_add(&d).map(Ratio::into_pair), Some((1, 1)));
    assert_eq!(c.checked_sub(&d).map(Ratio::into_pair), Some((2, 3)));
    assert_eq!(c.checked_mul(&d).map(Ratio::into_pair), Some((5, 36)));
    assert_eq!(c.checked_div(&d).map(Ratio::into_pair), Some((5, 1)));
    // every product fits, the lowest terms do not
    let least = Ratio::new_raw(i8::MIN, 1);
    let minus_one = Ratio::new_raw(1i8, -1);
    assert_eq!(least.checked_mul(&minus_one), None);
    assert_eq!(least.checked_div(&Ratio::new_raw(-1i8, 1)), None);
    let big = Ratio::new(128u8, 1);
    assert_eq!(big.checked_mul(&big), None);
    assert_eq!(
        Ratio::new(BigInt::from(128), BigInt::from(1))
            .checked_mul(&Ratio::new(BigInt::from(128), BigInt::from(1))),
        Some(Ratio::new(BigInt::from(16384), BigInt::from(1)))
    );
}

#[test]
fn remainder_takes_the_sign_of_the_dividend() {
    let a = Ratio::new(-7i32, 2);
    let b = Ratio::new(3i32, 2);
    assert_eq!((a % b).into_pair(), (-1, 2));
    assert_eq!((Ratio::new(7i32, 2) % b).into_pair(), (1, 2));
    assert_eq!((a % 2).into_pair(), (-3, 2));
    assert_eq!(big(-7, 2) % big(3, 2), big(-1, 2));
}

#[test]
fn operators_with_borrowed_operands() {
    let a = Ratio::new(1i32, 2);
    let b = Ratio::new(1i32, 3);
    assert_eq!(&a + &b, Ratio::new(5, 6));
    assert_eq!(&a - b, Ratio::new(1, 6));
    assert_eq!(a * &b, Ratio::new(1, 6));
    assert_eq!(&a / &b, Ratio::new(3, 2));
    assert_eq!(&a % &b, Ratio::new(1, 6));
    assert_eq!(&a + &3, Ratio::new(7, 2));
    assert_eq!(&a * 4, Ratio::new(2, 1));
    assert_eq!(a / &4, Ratio::new(1, 8));
    assert_eq!(-&a, Ratio::new(-1, 2));
    let mut x = a;
    x += &b;
    x *= &6;
    assert_eq!(x, Ratio::new(5, 1));
    x -= &b;
    x /= &b;
    x %= &4;
    assert_eq!(x, Ratio::new(2, 1));
    let p = BigInt::from(5);
    assert_eq!(&big(1, 2) + &p, big(11, 2));
}

#[test]
fn an_integer_on_the_left_is_taken_over_one() {
    let a = Ratio::new(1i32, 2);
    assert_eq!(3i8 + a, Ratio::new(7, 2));
    assert_eq!(3u16 - a, Ratio::new(5, 2));
    assert_eq!(3i32 * a, Ratio::new(3, 2));
    assert_eq!(3u8 / a, Ratio::new(6, 1));
    assert_eq!(big(1, 2) + 3u64, big(7, 2));
    assert_eq!(big(1, 2) - 3i8, big(-5, 2));
    assert_eq!(big(1, 2) * u128::MAX, Ratio::new(BigInt::from(u128::MAX), BigInt::from(2)));
    assert_eq!(big(1, 2) / -3isize, big(-1, 6));
    assert_eq!(i128::MIN + big(0, 1), Ratio::from_integer(BigInt::from(i128::MIN)));
}

#[test]
fn reciprocal_keeps_the_sign_in_the_numerator() {
    assert_eq!(Ratio::new_raw(-3i32, 4).recip().into_pair(), (-4, 3));
    assert_eq!(Ratio::new_raw(3i32, -4).recip().into_pair(), (-4, 3));
    assert_eq!(Ratio::new_raw(6i32, 4).recip().into_pair(), (4, 6));
    assert_eq!(Ratio::new_raw(-3i32, 4).inv().into_pair(), (-4, 3));
    assert_eq!(Inv::inv(&Ratio::new_raw(2i32, 5)).into_pair(), (5, 2));
    assert_eq!(big(-3, 4).recip(), big(-4, 3));
}

#[test]
fn powers_are_not_reduced_again() {
    assert_eq!(Ratio::new_raw(2i32, 4).pow(2).into_pair(), (4, 16));
    assert_eq!(Ratio::new_raw(2i32, 4).pow(-2).into_pair(), (16, 4));
    assert_eq!(Ratio::new_raw(-2i32, 3).pow(3).into_pair(), (-8, 27));
    assert_eq!(Ratio::new_raw(-2i32, 3).pow(-3).into_pair(), (27, -8));
    assert_eq!(Ratio::new_raw(-2i8, 1).pow(7).into_pair(), (-128, 1));
    assert_eq!(Ratio::new_raw(-1i8, 1).pow(i32::MIN).into_pair(), (1, 1));
    assert_eq!(Ratio::new_raw(-1i8, 1).pow(i32::MAX).into_pair(), (-1, 1));
    assert_eq!(Ratio::new_raw(0i8, 1).pow(i32::MAX).into_pair(), (0, 1));
    assert_eq!(Ratio::new_raw(0i8, 3).pow(0).into_pair(), (1, 1));
    assert_eq!(Ratio::new_raw(3u64, 2).pow(40).into_pair(), (12157665459056928801, 1 << 40));
    assert_eq!(
        big(2, 3).pow(100).into_pair().0,
        "1267650600228229401496703205376".parse::<BigInt>().unwrap()
    );
}

#[test]
fn the_capability_of_machine_integers() {
    assert_eq!(Backing::gcd(&-12i32, &18), 6);
    assert_eq!(Backing::gcd(&0i32, &-5), 5);
    assert_eq!(Backing::gcd(&0u8, &0), 0);
    assert_eq!(Backing::gcd(&i8::MIN, &64), 64);
    assert_eq!(Backing::gcd(&i8::MIN, &-1), 1);
    assert_eq!(Backing::gcd(&255u8, &170), 85);
    assert_eq!((-7i32).checked_div_mod_floor(&2), Some((-4, 1)));
    assert_eq!(7i32.checked_div_mod_floor(&-2), Some((-4, -1)));
    assert_eq!((-7i32).checked_div_mod_floor(&-2), Some((3, -1)));
    assert_eq!(i8::MIN.checked_div_mod_floor(&-1), None);
    assert_eq!(Arith::checked_div_rem(&i8::MIN, &-1), None);
    assert_eq!(Arith::checked_div_rem(&-7i8, &2), Some((-3, -1)));
    assert_eq!(Arith::div_trunc(&-7i8, &2), -3);
    assert_eq!(Arith::rem_trunc(&-7i8, &2), -1);
    assert!(Backing::is_even(&-4i16));
    assert!(!Backing::is_even(&-3i16));
    assert!(!Backing::is_even(&255u8));
    assert_eq!(Backing::pow(&-2i8, 7), -128);
    assert_eq!(Backing::pow(&3u8, 5), 243);
    assert_eq!(Backing::pow(&7i64, 0), 1);
    assert_eq!(<i8 as Backing>::max_value(), Some(127));
    assert_eq!(<u16 as Backing>::from_i128(65535), Some(65535));
    assert_eq!(<u16 as Backing>::from_i128(65536), None);
    assert_eq!(<u16 as Backing>::from_i128(-1), None);
    assert_eq!(<i16 as Backing>::from_u128(32768), None);
    assert_eq!(<i128 as Backing>::from_u128(u128::MAX), None);
    assert_eq!(<u128 as Backing>::from_i128(i128::MAX), Some(i128::MAX as u128));
    assert_eq!(Arith::to_i128(&u128::MAX), None);
    assert_eq!(Arith::to_i128(&-5i8), Some(-5));
    assert_eq!(Arith::checked_plus(&200u8, &56), None);
    assert_eq!(Arith::checked_minus(&-100i8, &29), None);
    assert_eq!(Arith::checked_times(&16i8, &8), None);
    assert_eq!(Arith::checked_times(&-16i8, &8), Some(-128));
    assert_eq!(<i32 as Backing>::parse_radix("-7f", 16), Some(-127));
    assert_eq!(<u32 as Backing>::parse_radix("+7f", 16), Some(127));
    assert_eq!(<u32 as Backing>::parse_radix("-7f", 16), None);
    assert_eq!(<i8 as Backing>::parse_radix("-128", 10), Some(-128));
    assert_eq!(<i8 as Backing>::parse_radix("128", 10), None);
    assert_eq!(<i8 as Backing>::parse_radix("", 10), None);
    assert_eq!(<i8 as Backing>::parse_radix("-", 10), None);
    assert_eq!(<i8 as Backing>::parse_radix("1_0", 10), None);
    assert_eq!(Backing::to_text(&i64::MIN), "-9223372036854775808");
    assert_eq!(Backing::to_text(&0u8), "0");
    assert_eq!(Backing::to_text(&1000usize), "1000");
}

#[test]
fn the_capability_of_big_integers() {
    let b = |v: i64| BigInt::from(v);
    assert_eq!(<BigInt as Arith>::zero(), b(0));
    assert_eq!(<BigInt as Arith>::one(), b(1));
    assert_eq!(<BigInt as Arith>::from_small(36), b(36));
    assert_eq!(Arith::dup(&b(-5)), b(-5));
    assert!(Arith::is_zero(&b(0)) && !Arith::is_zero(&b(3)));
    assert!(Arith::same(&b(3), &b(3)) && !Arith::same(&b(3), &b(4)));
    assert!(Arith::less(&b(3), &b(4)) && !Arith::less(&b(4), &b(3)));
    assert_eq!(Arith::plus(&b(3), &b(4)), b(7));
    assert_eq!(Arith::minus(&b(3), &b(4)), b(-1));
    assert_eq!(Arith::times(&b(3), &b(4)), b(12));
    assert_eq!(Arith::div_trunc(&b(-7), &b(2)), b(-3));
    assert_eq!(Arith::rem_trunc(&b(-7), &b(2)), b(-1));
    assert_eq!(Arith::checked_plus(&b(3), &b(4)), Some(b(7)));
    assert_eq!(Arith::checked_minus(&b(3), &b(4)), Some(b(-1)));
    assert_eq!(Arith::checked_times(&b(3), &b(4)), Some(b(12)));
    assert_eq!(Arith::checked_div_rem(&b(7), &b(-2)), Some((b(-3), b(1))));
    assert_eq!(Arith::to_i128(&b(-9)), Some(-9));
    assert_eq!(Arith::to_i128(&(BigInt::from(i128::MAX) + 1)), None);
    assert_eq!(Backing::gcd(&b(-12), &b(18)), b(6));
    assert_eq!(b(7).checked_div_mod_floor(&b(-2)), Some((b(-4), b(-1))));
    assert!(Backing::is_even(&b(-4)) && !Backing::is_even(&b(7)));
    assert_eq!(Backing::pow(&b(-3), 3), b(-27));
    assert_eq!(Backing::pow(&b(0), 0), b(1));
    assert_eq!(<BigInt as Backing>::max_value(), None);
    assert_eq!(<BigInt as Backing>::from_i128(i128::MIN), Some(BigInt::from(i128::MIN)));
    assert_eq!(<BigInt as Backing>::from_u128(u128::MAX), Some(BigInt::from(u128::MAX)));
    assert_eq!(<BigInt as Backing>::parse_radix("-1_0", 10), Some(b(-10)));
    assert_eq!(<BigInt as Backing>::parse_radix("+zz", 36), Some(b(1295)));
    assert_eq!(<BigInt as Backing>::parse_radix("-+1", 10), None);
    assert_eq!(<BigInt as Backing>::parse_radix("_1", 10), None);
    assert_eq!(<BigInt as Backing>::parse_radix("12", 2), None);
    assert_eq!(<BigInt as Backing>::parse_radix("", 10), None);
    assert_eq!(Backing::to_text(&b(-120)), "-120");
}

#[test]
fn ratios_from_integers_of_other_widths() {
    assert_eq!(Ratio::<i64>::from(-5i8).into_pair(), (-5, 1));
    assert_eq!(Ratio::<u128>::from(u64::MAX).into_pair(), (u64::MAX as u128, 1));
    assert_eq!(Ratio::<i16>::from(255u8).into_pair(), (255, 1));
    assert_eq!(Ratio::<u8>::try_from(255i32).map(Ratio::into_pair), Ok((255, 1)));
    assert_eq!(Ratio::<u8>::try_from(256i32), Err(()));
    assert_eq!(Ratio::<u8>::try_from(-1i8), Err(()));
    assert_eq!(Ratio::<i8>::try_from(128u8), Err(()));
    assert_eq!(Ratio::<i8>::try_from(-128i64).map(Ratio::into_pair), Ok((-128, 1)));
    assert_eq!(Ratio::<i128>::try_from(u128::MAX), Err(()));
    assert_eq!(Ratio::<u128>::try_from(i128::MIN), Err(()));
    assert_eq!(Ratio::<i32>::from_i64(1 << 40), None);
    assert_eq!(Ratio::<i32>::from_i64(-7).map(Ratio::into_pair), Some((-7, 1)));
    assert_eq!(Ratio::<u32>::from_u64(7).map(Ratio::into_pair), Some((7, 1)));
    assert_eq!(Ratio::<u32>::from_i128(-7), None);
    assert_eq!(Ratio::<i8>::from_u128(200), None);
    assert_eq!(
        Ratio::<BigInt>::from_u128(u128::MAX).map(Ratio::into_pair),
        Some((BigInt::from(u128::MAX), BigInt::from(1)))
    );
}

#[test]
fn sign_of_a_raw_ratio() {
    let a = Ratio::new_raw(3i32, -4);
    assert!(a.is_negative() && !a.is_positive());
    assert_eq!(a.abs().into_pair(), (-3, -4));
    assert_eq!(a.signum().into_pair(), (-1, 1));
    assert_eq!(Ratio::new_raw(0i32, -4).signum().into_pair(), (0, 1));
    assert_eq!(Ratio::new_raw(-3i32, -4).signum().into_pair(), (1, 1));
    assert_eq!(Ratio::new_raw(3u8, 4).signum().into_pair(), (1, 1));
    assert_eq!(Ratio::new_raw(5i32, 4).abs_sub(&Ratio::new_raw(1, 4)).into_pair(), (1, 1));
    assert_eq!(Ratio::new_raw(1i32, 4).abs_sub(&Ratio::new_raw(1, 4)).into_pair(), (0, 1));
    assert!(Ratio::new_raw(2i32, 2).is_one());
    assert!(!Ratio::new_raw(2i32, 2).is_integer());
    assert!(Ratio::new_raw(0i32, 2).is_zero());
}
