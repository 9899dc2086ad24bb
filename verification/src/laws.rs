//! What holds of the library as a whole: reduction settles, comparison is
//! the order of the values and a total order, equal values hash alike, and
//! a ratio is the sum of its integral and its fractional part.

use vstd::prelude::*;
use std::cmp::Ordering;
use crate::backing::Backing;
use crate::euclid::lemma_quotient_fits;
use crate::fraction::{lemma_reduced, lemma_reduced_fixed, lemma_same_value_reduced, Fraction};
use crate::math::{
    abs, floor_div, floor_mod, lemma_floor_div_mod, lemma_floor_div_unique, lemma_trunc_div_rem,
    trunc_div, trunc_rem,
};
use crate::order::{int_order, lemma_value_order_upright, reversed};
use crate::ratio::Ratio;

verus! {

/// Reducing twice is reducing once.
pub proof fn lemma_reduce_idempotent(f: Fraction)
    requires
        f.den != 0,
    ensures
        f.reduced().is_reduced(),
        f.reduced().reduced() == f.reduced(),
{
    lemma_reduced(f);
    lemma_reduced_fixed(f.reduced());
}

/// Two fractions compare equal exactly where they have the same value,
/// that is where their cross products are equal.
pub proof fn lemma_equal_iff_same_value(a: Fraction, b: Fraction)
    requires
        a.den != 0,
        b.den != 0,
    ensures
        a.value_order(b) == Ordering::Equal <==> a.same_value(b),
        a.value_order(b) == Ordering::Equal <==> a.num * b.den == b.num * a.den,
{
}

/// Over positive denominators comparison is the order of the cross
/// products.
pub proof fn lemma_order_is_cross_products(a: Fraction, b: Fraction)
    requires
        a.den > 0,
        b.den > 0,
    ensures
        a.value_order(b) == int_order(a.num * b.den, b.num * a.den),
{
}

/// A fraction and its lowest terms compare equal.
pub proof fn lemma_reduced_compares_equal(a: Fraction)
    requires
        a.den != 0,
    ensures
        a.value_order(a.reduced()) == Ordering::Equal,
        a.reduced().value_order(a) == Ordering::Equal,
{
    lemma_reduced(a);
    let r = a.reduced();
    assert(r.num * a.den == a.num * r.den);
}

/// The order of the values is a total order: it is reflexive, it turns
/// round with its arguments, and it is transitive.
pub proof fn lemma_value_order_total(a: Fraction, b: Fraction, c: Fraction)
    requires
        a.den != 0,
        b.den != 0,
        c.den != 0,
    ensures
        a.value_order(a) == Ordering::Equal,
        b.value_order(a) == reversed(a.value_order(b)),
        a.value_order(b) != Ordering::Greater && b.value_order(c) != Ordering::Greater
            ==> a.value_order(c) != Ordering::Greater,
        a.value_order(b) == Ordering::Less && b.value_order(c) != Ordering::Greater
            ==> a.value_order(c) == Ordering::Less,
        a.value_order(b) != Ordering::Greater && b.value_order(c) == Ordering::Less
            ==> a.value_order(c) == Ordering::Less,
{
    lemma_value_order_upright(a, b);
    lemma_value_order_upright(b, c);
    lemma_value_order_upright(a, c);
    let (x, y, z) = (a.upright(), b.upright(), c.upright());
    let (n1, d1, n2, d2, n3, d3) = (x.num, x.den, y.num, y.den, z.num, z.den);
    assert(n1 * d2 <= n2 * d1 && n2 * d3 <= n3 * d2 ==> n1 * d3 <= n3 * d1) by (nonlinear_arith)
        requires
            d1 > 0,
            d2 > 0,
            d3 > 0,
    {
        if n1 * d2 <= n2 * d1 && n2 * d3 <= n3 * d2 {
            assert(n1 * d2 * d3 <= n2 * d1 * d3);
            assert(n2 * d3 * d1 <= n3 * d2 * d1);
            assert(d2 * (n1 * d3) <= d2 * (n3 * d1));
        }
    }
    assert(n1 * d2 < n2 * d1 && n2 * d3 <= n3 * d2 ==> n1 * d3 < n3 * d1) by (nonlinear_arith)
        requires
            d1 > 0,
            d2 > 0,
            d3 > 0,
    {
        if n1 * d2 < n2 * d1 && n2 * d3 <= n3 * d2 {
            assert(n1 * d2 * d3 < n2 * d1 * d3);
            assert(n2 * d3 * d1 <= n3 * d2 * d1);
            assert(d2 * (n1 * d3) < d2 * (n3 * d1));
        }
    }
    assert(n1 * d2 <= n2 * d1 && n2 * d3 < n3 * d2 ==> n1 * d3 < n3 * d1) by (nonlinear_arith)
        requires
            d1 > 0,
            d2 > 0,
            d3 > 0,
    {
        if n1 * d2 <= n2 * d1 && n2 * d3 < n3 * d2 {
            assert(n1 * d2 * d3 <= n2 * d1 * d3);
            assert(n2 * d3 * d1 < n3 * d2 * d1);
            assert(d2 * (n1 * d3) < d2 * (n3 * d1));
        }
    }
}

/// Two fractions in lowest terms compare equal only where they are the
/// same pair.
pub proof fn lemma_reduced_equal_are_same(a: Fraction, b: Fraction)
    requires
        a.is_reduced(),
        b.is_reduced(),
    ensures
        a.value_order(b) == Ordering::Equal <==> a == b,
{
    if a.same_value(b) {
        lemma_same_value_reduced(a, b);
    }
}

/// A ratio is the sum of its integral and its fractional part: before the
/// sum is reduced it is the very pair, and reduced it is the ratio in
/// lowest terms.
pub proof fn lemma_trunc_plus_fract(a: Fraction)
    requires
        a.den != 0,
    ensures
        Fraction::integer(trunc_div(a.num, a.den)).sum(
            Fraction { num: trunc_rem(a.num, a.den), den: a.den },
        ) == a,
        Fraction::integer(trunc_div(a.num, a.den)).sum(
            Fraction { num: trunc_rem(a.num, a.den), den: a.den },
        ).reduced().same_value(a),
        a.is_reduced() ==> Fraction::integer(trunc_div(a.num, a.den)).sum(
            Fraction { num: trunc_rem(a.num, a.den), den: a.den },
        ).reduced() == a,
{
    lemma_trunc_div_rem(a.num, a.den);
    let q = trunc_div(a.num, a.den);
    assert(q * a.den == a.den * q) by (nonlinear_arith);
    lemma_reduced(a);
    if a.is_reduced() {
        lemma_reduced_fixed(a);
    }
}

/// A ratio compares equal to the sum of its integral and its fractional
/// part.
pub proof fn lemma_trunc_plus_fract_compares_equal(a: Fraction)
    requires
        a.den != 0,
    ensures
        a.value_order(
            Fraction::integer(trunc_div(a.num, a.den)).sum(
                Fraction { num: trunc_rem(a.num, a.den), den: a.den },
            ).reduced(),
        ) == Ordering::Equal,
{
    lemma_trunc_plus_fract(a);
    lemma_reduced_compares_equal(a);
}

/// Fractions of the same value have the same quotient toward minus
/// infinity, and what the division leaves of them has the same value again.
pub proof fn lemma_same_value_step(a: Fraction, b: Fraction)
    requires
        a.den != 0,
        b.den != 0,
        a.same_value(b),
    ensures
        floor_div(a.num, a.den) == floor_div(b.num, b.den),
        a.turned().same_value(b.turned()),
        (floor_mod(a.num, a.den) == 0) == (floor_mod(b.num, b.den) == 0),
{
    lemma_floor_div_mod(a.num, a.den);
    let q = floor_div(a.num, a.den);
    let ra = floor_mod(a.num, a.den);
    let rb = b.num - b.den * q;
    let (d1, d2) = (a.den, b.den);
    assert(ra * d2 == rb * d1) by (nonlinear_arith)
        requires
            a.num == d1 * q + ra,
            rb == b.num - d2 * q,
            a.num * d2 == b.num * d1,
    ;
    assert((d2 > 0 ==> 0 <= rb < d2) && (d2 < 0 ==> d2 < rb <= 0) && ((ra == 0) == (rb == 0)))
        by (nonlinear_arith)
        requires
            ra * d2 == rb * d1,
            d1 != 0,
            d2 != 0,
            d1 > 0 ==> 0 <= ra < d1,
            d1 < 0 ==> d1 < ra <= 0,
    ;
    lemma_floor_div_unique(b.num, b.den, q, rb);
    assert(d1 * rb == d2 * ra) by (nonlinear_arith)
        requires
            ra * d2 == rb * d1,
    ;
}

impl<T: Backing> Ratio<T> {
    /// Fractions of the same value have the same terms to hash, reduced or
    /// not.
    pub proof fn lemma_equal_values_hash_alike(a: Fraction, b: Fraction)
        requires
            T::fits(a.num),
            T::fits(a.den),
            T::fits(b.num),
            T::fits(b.den),
            a.same_value(b),
            (a.den == 0) == (b.den == 0),
        ensures
            Self::hash_model(a) == Self::hash_model(b),
        decreases abs(a.den),
    {
        if a.den != 0 {
            lemma_same_value_step(a, b);
            lemma_floor_div_mod(a.num, a.den);
            lemma_floor_div_mod(b.num, b.den);
            lemma_quotient_fits::<T>(a.num, a.den);
            lemma_quotient_fits::<T>(b.num, b.den);
            T::lemma_fits_small();
            if T::fits(floor_div(a.num, a.den)) {
                let ra = floor_mod(a.num, a.den);
                let rb = floor_mod(b.num, b.den);
                if a.den > 0 {
                    T::lemma_fits_between(0, ra, a.den);
                } else {
                    T::lemma_fits_between(a.den, ra, 0);
                }
                if b.den > 0 {
                    T::lemma_fits_between(0, rb, b.den);
                } else {
                    T::lemma_fits_between(b.den, rb, 0);
                }
                Self::lemma_equal_values_hash_alike(a.turned(), b.turned());
            }
        }
    }
}

} // verus!
