//! Division with remainder and greatest common divisors, written once over
//! the ring operations of `Arith`.

use vstd::prelude::*;
use crate::backing::Arith;
use crate::math::{
    abs, floor_div, floor_mod, gcd, gcd_nat, lemma_floor_from_trunc, lemma_trunc_div_bounds,
    lemma_trunc_div_rem, trunc_div, trunc_rem,
};

verus! {

/// A quotient of two representable integers is representable, whichever way
/// it is rounded, unless a negative dividend whose negative does not fit is
/// divided by -1.
pub proof fn lemma_quotient_fits<T: Arith>(n: int, d: int)
    requires
        T::fits(n),
        T::fits(d),
        d != 0,
    ensures
        d == -1 ==> trunc_div(n, d) == -n && floor_div(n, d) == -n,
        d != -1 || n >= 0 || T::fits(-n) ==> T::fits(trunc_div(n, d)) && T::fits(floor_div(n, d)),
{
    T::lemma_fits_small();
    lemma_trunc_div_bounds(n, d);
    lemma_trunc_div_rem(n, d);
    lemma_floor_from_trunc(n, d);
    let q = trunc_div(n, d);
    let r = trunc_rem(n, d);
    if d < 0 {
        T::lemma_fits_between(d, -1, 0);
        T::lemma_fits_negation(n);
    }
    if d != -1 || n >= 0 || T::fits(-n) {
        // the quotient toward zero lies between 0 and one of n, -n, -n - 1
        if (n >= 0) == (d > 0) {
            if n >= 0 {
                T::lemma_fits_between(0, q, n);
            } else if d == -1 {
            } else {
                T::lemma_fits_between(0, q, -n - 1);
            }
        } else {
            if n >= 0 {
                T::lemma_fits_between(-n, q, 0);
            } else {
                T::lemma_fits_between(n, q, 0);
            }
        }
        if r != 0 && (r < 0) != (d < 0) {
            // rounding down moves the quotient one further from zero, and a
            // remainder leaves room for that
            assert(abs(q) + 1 <= abs(n)) by (nonlinear_arith)
                requires
                    n == d * q + r,
                    r != 0,
                    abs(r) < abs(d),
                    d != 0,
                    (n >= 0) == (d > 0) ==> q >= 0,
                    (n >= 0) != (d > 0) ==> q <= 0,
                    n >= 0 ==> r >= 0,
                    n <= 0 ==> r <= 0,
            ;
            if n >= 0 {
                T::lemma_fits_between(-n, q - 1, 0);
            } else {
                T::lemma_fits_between(n, q - 1, 0);
            }
        }
    }
}

/// One step of Euclid's algorithm keeps the greatest common divisor.
pub proof fn lemma_gcd_step(m: int, n: int)
    requires
        n != 0,
    ensures
        gcd(m, n) == gcd(n, trunc_rem(m, n)),
{
    lemma_trunc_div_rem(m, n);
}

/// The greatest common divisor with 1 or -1 is 1.
pub proof fn lemma_gcd_unit(m: int, n: int)
    requires
        abs(n) == 1,
    ensures
        gcd(m, n) == 1,
{
    let a = abs(m) as nat;
    assert(a % 1 == 0);
    assert(gcd_nat(1, 0) == 1);
    assert(gcd_nat(a, 1) == gcd_nat(1, a % 1));
}

/// Greatest common divisor by Euclid's algorithm.
pub fn gcd_of<T: Arith>(a: &T, b: &T) -> (r: T)
    requires
        T::fits(gcd(a.val(), b.val())),
    ensures
        r.val() == gcd(a.val(), b.val()),
{
    let mut m = a.dup();
    let mut n = b.dup();
    while !n.is_zero()
        invariant
            gcd(m.val(), n.val()) == gcd(a.val(), b.val()),
            T::fits(gcd(a.val(), b.val())),
        decreases abs(n.val()),
    {
        proof {
            m.lemma_val_fits();
            n.lemma_val_fits();
            lemma_quotient_fits::<T>(m.val(), n.val());
            lemma_gcd_step(m.val(), n.val());
            lemma_trunc_div_rem(m.val(), n.val());
        }
        match m.checked_div_rem(&n) {
            None => {
                proof {
                    lemma_gcd_unit(m.val(), n.val());
                }
                return T::one();
            },
            Some((_, rem)) => {
                m = n;
                n = rem;
            },
        }
    }
    let zero = T::zero();
    if m.less(&zero) {
        zero.minus(&m)
    } else {
        m
    }
}

/// Quotient rounded toward minus infinity and its remainder, or `None`
/// where the quotient is not representable.
pub fn div_mod_floor_of<T: Arith>(n: &T, d: &T) -> (r: Option<(T, T)>)
    requires
        d.val() != 0,
    ensures
        r is Some <==> T::fits(floor_div(n.val(), d.val())),
        r matches Some(qr) ==> qr.0.val() == floor_div(n.val(), d.val()) && qr.1.val()
            == floor_mod(n.val(), d.val()),
{
    proof {
        n.lemma_val_fits();
        d.lemma_val_fits();
        lemma_quotient_fits::<T>(n.val(), d.val());
        lemma_floor_from_trunc(n.val(), d.val());
        lemma_trunc_div_rem(n.val(), d.val());
        T::lemma_fits_small();
    }
    match n.checked_div_rem(d) {
        None => None,
        Some((q, rem)) => {
            let zero = T::zero();
            if (zero.less(&rem) && d.less(&zero)) || (rem.less(&zero) && zero.less(d)) {
                proof {
                    if d.val() > 0 {
                        T::lemma_fits_between(0, rem.val() + d.val(), d.val());
                    } else {
                        T::lemma_fits_between(d.val(), rem.val() + d.val(), 0);
                    }
                }
                Some((q.minus(&T::one()), rem.plus(d)))
            } else {
                Some((q, rem))
            }
        },
    }
}

/// Whether `n` is divisible by two.
pub fn is_even_of<T: Arith>(n: &T) -> (r: bool)
    ensures
        r == (n.val() % 2 == 0),
{
    proof {
        T::lemma_fits_small();
        n.lemma_val_fits();
        lemma_quotient_fits::<T>(n.val(), 2);
    }
    let one = T::one();
    let two = one.plus(&one);
    n.rem_trunc(&two).is_zero()
}

} // verus!
