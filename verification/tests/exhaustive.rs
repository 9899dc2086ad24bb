use num_rational::{Backing, Ratio};
use std::cmp::Ordering;
use std::str::FromStr;

fn gcd(a: i32, b: i32) -> i32 {
    let (mut a, mut b) = (a.abs(), b.abs());
    while b != 0 {
        let r = a % b;
        a = b;
        b = r;
    }
    a
}

fn fits(v: i32) -> bool {
    -128 <= v && v <= 127
}

fn value_order(n1: i32, d1: i32, n2: i32, d2: i32) -> Ordering {
    let sign = (d1 * d2).signum();
    (n1 * d2 * sign).cmp(&(n2 * d1 * sign))
}

fn pairs() -> Vec<(i8, i8)> {
    let mut all = Vec::new();
    for n in i8::MIN..=i8::MAX {
        for d in i8::MIN..=i8::MAX {
            if d != 0 {
                all.push((n, d));
            }
        }
    }
    all
}

#[test]
fn every_i8_ratio_reduces_as_it_should() {
    for (n, d) in pairs() {
        let (n32, d32) = (n as i32, d as i32);
        let g = gcd(n32, d32);
        let sign = if d32 < 0 { -1 } else { 1 };
        let want = (sign * n32 / g, sign * d32 / g);
        let can = fits(g) && fits(want.0) && fits(want.1);
        let got = Ratio::checked_new(n, d);
        assert_eq!(got.is_some(), can, "{}/{}", n, d);
        if let Some(r) = got {
            assert_eq!((*r.numer() as i32, *r.denom() as i32), want);
            assert_eq!(Ratio::new(n, d).into_pair(), r.into_pair());
            assert_eq!(Ratio::new_raw(n, d).reduced().into_pair(), r.into_pair());
            assert_eq!(r.reduced().into_pair(), r.into_pair());
        }
        if fits(g) {
            assert_eq!(Backing::gcd(&n, &d) as i32, g);
        }
    }
}

#[test]
fn every_i8_ratio_rounds_as_it_should() {
    for (n, d) in pairs() {
        let (n32, d32) = (n as i32, d as i32);
        let x = Ratio::new_raw(n, d);
        let trunc = n32 / d32;
        let floor = n32.div_euclid(d32) - if d32 < 0 && n32.rem_euclid(d32) != 0 { 1 } else { 0 };
        let ceil = if floor * d32 == n32 { floor } else { floor + 1 };
        let rem = (n32 - trunc * d32).abs();
        let round = if 2 * rem >= d32.abs() {
            if (n32 >= 0) == (d32 > 0) {
                trunc + 1
            } else {
                trunc - 1
            }
        } else {
            trunc
        };
        if fits(floor) {
            assert_eq!(x.floor().into_pair(), (floor as i8, 1), "floor {}/{}", n, d);
        }
        if fits(ceil) {
            assert_eq!(x.ceil().into_pair(), (ceil as i8, 1), "ceil {}/{}", n, d);
        }
        if fits(trunc) {
            assert_eq!(x.trunc().into_pair(), (trunc as i8, 1), "trunc {}/{}", n, d);
            assert_eq!(x.to_integer(), trunc as i8);
            assert_eq!(x.fract().into_pair(), ((n32 - trunc * d32) as i8, d));
            if fits(round) {
                assert_eq!(x.round().into_pair(), (round as i8, 1), "round {}/{}", n, d);
            }
        }
    }
}

#[test]
fn every_i8_ratio_compares_as_it_should() {
    let others: Vec<(i8, i8)> = vec![
        (0, 1),
        (1, 1),
        (-1, 1),
        (1, 2),
        (-1, 2),
        (1, -2),
        (127, 1),
        (-128, 1),
        (-128, -1),
        (127, -128),
        (-128, 127),
        (1, 127),
        (1, -128),
        (-1, -128),
        (126, 127),
        (125, 126),
        (-127, -128),
        (64, -128),
        (3, 7),
        (-5, 9),
        (100, 99),
        (0, 2),
        (0, -3),
        (5, 3),
        (5, -3),
        (-128, -128),
        (-128, 2),
    ];
    for (n1, d1) in pairs() {
        let a = Ratio::new_raw(n1, d1);
        assert_eq!(a.cmp(&a), Ordering::Equal);
        let terms = a.hash_terms();
        for &(n2, d2) in &others {
            let b = Ratio::new_raw(n2, d2);
            let value = value_order(n1 as i32, d1 as i32, n2 as i32, d2 as i32);
            let got = a.cmp(&b);
            assert_eq!(got, value, "{}/{} against {}/{}", n1, d1, n2, d2);
            assert_eq!(b.cmp(&a), value.reverse());
            assert_eq!(a == b, value == Ordering::Equal);
            assert_eq!(a < b, value == Ordering::Less);
            assert_eq!(a >= b, value != Ordering::Less);
            if value == Ordering::Equal {
                assert_eq!(terms, b.hash_terms(), "{}/{} and {}/{}", n1, d1, n2, d2);
            }
        }
    }
}

#[test]
fn every_i8_ratio_comes_back_from_its_text() {
    for (n, d) in pairs() {
        let raw = Ratio::new_raw(n, d);
        let text = raw.to_string();
        if d == 1 {
            assert_eq!(text, format!("{}", n));
        } else {
            assert_eq!(text, format!("{}/{}", n, d));
        }
        let back = Ratio::<i8>::from_str(&text);
        match Ratio::checked_new(n, d) {
            Some(r) => assert_eq!(back.map(Ratio::into_pair), Ok(r.into_pair())),
            None => assert!(back.is_err()),
        }
    }
}

#[test]
fn checked_arithmetic_on_i8_agrees_with_wide_arithmetic() {
    let some: Vec<(i8, i8)> = pairs()
        .into_iter()
        .filter(|(n, d)| (*n as i32 * 7 + *d as i32 * 3) % 61 == 0)
        .collect();
    let reduce = |n: i32, d: i32| -> Option<(i32, i32)> {
        if !fits(n) || !fits(d) || d == 0 {
            return None;
        }
        let g = gcd(n, d);
        let sign = if d < 0 { -1 } else { 1 };
        let r = (sign * n / g, sign * d / g);
        if fits(g) && fits(r.0) && fits(r.1) {
            Some(r)
        } else {
            None
        }
    };
    let wide = |r: Option<Ratio<i8>>| r.map(|x| (*x.numer() as i32, *x.denom() as i32));
    for &(a, b) in &some {
        for &(c, d) in &some {
            let x = Ratio::new_raw(a, b);
            let y = Ratio::new_raw(c, d);
            let (a, b, c, d) = (a as i32, b as i32, c as i32, d as i32);
            let crosses = fits(a * d) && fits(b * c);
            let sum = if crosses { reduce(a * d + b * c, b * d) } else { None };
            let diff = if crosses { reduce(a * d - b * c, b * d) } else { None };
            let prod = reduce(a * c, b * d);
            let quot = reduce(a * d, b * c);
            assert_eq!(wide(x.checked_add(&y)), sum);
            assert_eq!(wide(x.checked_sub(&y)), diff);
            assert_eq!(wide(x.checked_mul(&y)), prod);
            assert_eq!(wide(x.checked_div(&y)), quot);
            if let Some(s) = sum {
                assert_eq!(wide(Some(x + y)), Some(s));
            }
            if let Some(p) = prod {
                assert_eq!(wide(Some(x * y)), Some(p));
            }
        }
    }
}
