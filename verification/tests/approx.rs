use num_bigint::BigInt;
use num_rational::{Backing, Convergents, Ratio};
use num_traits::float::FloatCore;
use num_traits::NumCast;
use std::str::FromStr;

type BigRational = Ratio<BigInt>;

// The floating-point side of the approximation, around the convergents
// that the library keeps.
fn approximate_float_unsigned<T, F>(val: F, max_error: F, max_iterations: usize) -> Option<Ratio<T>>
where
    T: Backing + NumCast + Clone,
    F: FloatCore + NumCast,
{
    if val < F::zero() || val.is_nan() {
        return None;
    }

    let mut q = val;
    let mut state = Convergents::<T>::with_terms(max_iterations);

    let t_max = T::max_value()?;
    let t_max_f = <F as NumCast>::from(t_max)?;

    // 1/epsilon > T::MAX
    let epsilon = t_max_f.recip();

    // Overflow
    if q > t_max_f {
        return None;
    }

    loop {
        let a = match <T as NumCast>::from(q) {
            None => break,
            Some(a) => a,
        };
        // a term of the continued fraction is never negative
        if a.less(&T::zero()) {
            break;
        }

        let a_f = match <F as NumCast>::from(a.clone()) {
            None => break,
            Some(a_f) => a_f,
        };
        let f = q - a_f;

        let (n, d) = match state.step(&a) {
            None => break,
            Some(nd) => nd,
        };

        // Close enough?
        let (n_f, d_f) = match (<F as NumCast>::from(n), <F as NumCast>::from(d)) {
            (Some(n_f), Some(d_f)) => (n_f, d_f),
            _ => break,
        };
        if (n_f / d_f - val).abs() < max_error {
            break;
        }

        // Prevent division by ~0
        if f < epsilon {
            break;
        }
        q = f.recip();
    }

    state.finish()
}

fn approximate_float<T, F>(val: F, max_error: F, max_iterations: usize) -> Option<Ratio<T>>
where
    T: Backing + NumCast + Clone,
    F: FloatCore + NumCast,
{
    let negative = val.is_sign_negative();
    let abs_val = val.abs();

    let r = approximate_float_unsigned(abs_val, max_error, max_iterations);

    // Make negative again if needed
    if negative {
        let (numer, denom) = r?.into_pair();
        let numer = T::zero().checked_minus(&numer)?;
        Some(Ratio::new_raw(numer, denom))
    } else {
        r
    }
}

fn signed_from_f32<T: Backing + NumCast + Clone>(n: f32) -> Option<Ratio<T>> {
    approximate_float(n, 10e-20, 30)
}

fn signed_from_f64<T: Backing + NumCast + Clone>(n: f64) -> Option<Ratio<T>> {
    approximate_float(n, 10e-20, 30)
}

fn unsigned_from_f32<T: Backing + NumCast + Clone>(n: f32) -> Option<Ratio<T>> {
    approximate_float_unsigned(n, 10e-20, 30)
}

#[test]
fn test_approximate_float() {
    assert_eq!(signed_from_f32(0.5f32), Some(Ratio::new(1i64, 2)));
    assert_eq!(signed_from_f64(0.5f64), Some(Ratio::new(1i32, 2)));
    assert_eq!(signed_from_f32(5f32), Some(Ratio::new(5i64, 1)));
    assert_eq!(signed_from_f64(5f64), Some(Ratio::new(5i32, 1)));
    assert_eq!(signed_from_f32(29.97f32), Some(Ratio::new(2997i64, 100)));
    assert_eq!(signed_from_f32(-29.97f32), Some(Ratio::new(-2997i64, 100)));

    assert_eq!(signed_from_f32::<i8>(63.5f32), Some(Ratio::new(127i8, 2)));
    assert_eq!(signed_from_f32::<i8>(126.5f32), Some(Ratio::new(126i8, 1)));
    assert_eq!(signed_from_f32::<i8>(127.0f32), Some(Ratio::new(127i8, 1)));
    assert_eq!(signed_from_f32::<i8>(127.5f32), None);
    assert_eq!(signed_from_f32::<i8>(-63.5f32), Some(Ratio::new(-127i8, 2)));
    assert_eq!(
        signed_from_f32::<i8>(-126.5f32),
        Some(Ratio::new(-126i8, 1))
    );
    assert_eq!(
        signed_from_f32::<i8>(-127.0f32),
        Some(Ratio::new(-127i8, 1))
    );
    assert_eq!(signed_from_f32::<i8>(-127.5f32), None);

    assert_eq!(unsigned_from_f32::<u8>(-127f32), None);
    assert_eq!(unsigned_from_f32::<u8>(127f32), Some(Ratio::new(127u8, 1)));
    assert_eq!(unsigned_from_f32::<u8>(127.5f32), Some(Ratio::new(255u8, 2)));
    assert_eq!(unsigned_from_f32::<u8>(256f32), None);

    assert_eq!(signed_from_f64::<i64>(-10e200), None);
    assert_eq!(signed_from_f64::<i64>(10e200), None);
    assert_eq!(signed_from_f64::<i64>(f64::INFINITY), None);
    assert_eq!(signed_from_f64::<i64>(f64::NEG_INFINITY), None);
    assert_eq!(signed_from_f64::<i64>(f64::NAN), None);
    assert_eq!(
        signed_from_f64::<i64>(f64::EPSILON),
        Some(Ratio::new(1, 4503599627370496))
    );
    assert_eq!(signed_from_f64::<i64>(0.0), Some(Ratio::new(0, 1)));
    assert_eq!(signed_from_f64::<i64>(-0.0), Some(Ratio::new(0, 1)));
}

#[test]
fn convergents_of_a_half() {
    // 0.5 is [0; 2]
    let mut state = Convergents::<i32>::start();
    assert_eq!(state.step(&0), Some((0, 1)));
    assert_eq!(state.step(&2), Some((1, 2)));
    assert_eq!(state.finish(), Some(Ratio::new(1, 2)));
}

#[test]
fn convergents_take_no_more_terms_than_they_were_given() {
    let mut state = Convergents::<i64>::with_terms(2);
    assert_eq!(state.step(&3), Some((3, 1)));
    assert_eq!(state.step(&7), Some((22, 7)));
    // the terms are spent: the state stays
    assert_eq!(state.step(&15), None);
    assert_eq!(state.step(&1), None);
    assert_eq!(state.finish(), Some(Ratio::new(22, 7)));

    let mut none = Convergents::<i64>::with_terms(0);
    assert_eq!(none.step(&3), None);
    assert_eq!(none.finish(), None);

    // the same number cut short after two terms, and after none
    assert_eq!(
        approximate_float::<i64, f64>(3.14159265359, 10e-20, 2),
        Some(Ratio::new(22, 7))
    );
    assert_eq!(approximate_float::<i64, f64>(3.14159265359, 10e-20, 0), None);
    assert_eq!(
        approximate_float::<i64, f64>(0.75, 10e-20, 1),
        Some(Ratio::new(0, 1))
    );
}

#[test]
fn convergents_without_a_term_give_nothing() {
    assert_eq!(Convergents::<i32>::start().finish(), None);
    assert_eq!(Convergents::<BigInt>::start().finish(), None);
}

#[test]
fn convergents_of_pi() {
    // 3, 22/7, 333/106, 355/113
    let mut state = Convergents::<i64>::start();
    assert_eq!(state.step(&3), Some((3, 1)));
    assert_eq!(state.step(&7), Some((22, 7)));
    assert_eq!(state.step(&15), Some((333, 106)));
    assert_eq!(state.step(&1), Some((355, 113)));
    assert_eq!(state.finish(), Some(Ratio::new(355, 113)));
}

#[test]
fn convergents_stop_where_the_type_has_no_room() {
    let mut state = Convergents::<i8>::start();
    assert_eq!(state.step(&3), Some((3, 1)));
    assert_eq!(state.step(&7), Some((22, 7)));
    // 15 * 22 + 3 is no i8: the state stays
    assert_eq!(state.step(&15), None);
    assert_eq!(state.step(&5), Some((113, 36)));
    assert_eq!(state.step(&2), None);
    assert_eq!(state.finish(), Some(Ratio::new(113, 36)));

    let mut state = Convergents::<u8>::start();
    assert_eq!(state.step(&255), Some((255, 1)));
    assert_eq!(state.step(&1), None);
    assert_eq!(state.finish(), Some(Ratio::new(255u8, 1)));
}

fn from_float<F: FloatCore>(f: F) -> Option<BigRational> {
    if !f.is_finite() {
        return None;
    }
    let (mantissa, exponent, sign) = f.integer_decode();
    Some(Ratio::from_float_parts(mantissa, exponent, sign))
}

fn check_from_float<F: FloatCore>(given: F, (numer, denom): (&str, &str)) {
    let ratio: BigRational = from_float(given).unwrap();
    assert_eq!(
        ratio,
        Ratio::new(
            FromStr::from_str(numer).unwrap(),
            FromStr::from_str(denom).unwrap()
        )
    );
}

#[test]
fn test_from_float() {
    // f32
    check_from_float(3.14159265359f32, ("13176795", "4194304"));
    check_from_float(2f32.powf(100.), ("1267650600228229401496703205376", "1"));
    check_from_float(-2f32.powf(100.), ("-1267650600228229401496703205376", "1"));
    check_from_float(
        1.0 / 2f32.powf(100.),
        ("1", "1267650600228229401496703205376"),
    );
    check_from_float(684729.48391f32, ("1369459", "2"));
    check_from_float(-8573.5918555f32, ("-4389679", "512"));

    // f64
    check_from_float(3.14159265359f64, ("3537118876014453", "1125899906842624"));
    check_from_float(2f64.powf(100.), ("1267650600228229401496703205376", "1"));
    check_from_float(-2f64.powf(100.), ("-1267650600228229401496703205376", "1"));
    check_from_float(684729.48391f64, ("367611342500051", "536870912"));
    check_from_float(-8573.5918555f64, ("-4713381968463931", "549755813888"));
    check_from_float(
        1.0 / 2f64.powf(100.),
        ("1", "1267650600228229401496703205376"),
    );
}

#[test]
fn float_parts_make_exact_ratios() {
    // 2^100 as a float is the mantissa 2^52 with the exponent 48
    let x = Ratio::from_float_parts(1u64 << 52, 48, 1);
    assert_eq!(x.to_string(), "1267650600228229401496703205376");
    assert_eq!(x.denom(), &BigInt::from(1));
    let y = Ratio::from_float_parts(3, -2, -1);
    assert_eq!(y.to_string(), "-3/4");
    let z = Ratio::from_float_parts(6, -2, 1);
    assert_eq!(z.to_string(), "3/2");
    let zero = Ratio::from_float_parts(0, -1074, -1);
    assert_eq!(zero.to_string(), "0");
    let w = Ratio::from_float_parts(5, 0, -1);
    assert_eq!(w.to_string(), "-5");
}
