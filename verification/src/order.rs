//! The order of ratios, found without forming the cross products
//! `a * d` and `b * c`, which a bounded integer type may not hold.

use vstd::prelude::*;
use std::cmp::Ordering;
use vstd::std_specs::cmp::{PartialEqSpecImpl, PartialOrdSpecImpl};
use crate::backing::{Arith, Backing};
use crate::euclid::lemma_quotient_fits;
use crate::fraction::Fraction;
use crate::math::{abs, floor_div, floor_mod, lemma_floor_div_mod};
use crate::ratio::Ratio;

verus! {

/// The order of two integers.
pub open spec fn int_order(a: int, b: int) -> Ordering {
    if a < b {
        Ordering::Less
    } else if a == b {
        Ordering::Equal
    } else {
        Ordering::Greater
    }
}

/// The opposite order.
pub open spec fn reversed(o: Ordering) -> Ordering {
    match o {
        Ordering::Less => Ordering::Greater,
        Ordering::Equal => Ordering::Equal,
        Ordering::Greater => Ordering::Less,
    }
}

impl Fraction {
    /// The order of the rational numbers that two fractions stand for:
    /// the order of the cross products `a*d` and `c*b`, turned round where
    /// the denominators lie on two sides of zero. A fraction over zero
    /// stands for no number; this order takes the products as they are.
    pub open spec fn value_order(self, other: Fraction) -> Ordering {
        if self.value_lt(other) {
            Ordering::Less
        } else if other.value_lt(self) {
            Ordering::Greater
        } else {
            Ordering::Equal
        }
    }

    /// The same value over a positive denominator.
    pub open spec fn upright(self) -> Fraction {
        if self.den < 0 {
            Fraction { num: -self.num, den: -self.den }
        } else {
            self
        }
    }

    /// The denominator over the remainder that the division toward minus
    /// infinity leaves: the reciprocal of the fractional part.
    pub open spec fn turned(self) -> Fraction {
        Fraction { num: self.den, den: floor_mod(self.num, self.den) }
    }
}

/// Turning both denominators positive keeps the order of the values.
pub proof fn lemma_value_order_upright(a: Fraction, b: Fraction)
    requires
        a.den != 0,
        b.den != 0,
    ensures
        a.value_order(b) == a.upright().value_order(b.upright()),
{
    let (n1, d1, n2, d2) = (a.num, a.den, b.num, b.den);
    assert((-n1) * d2 == -(n1 * d2) && n1 * (-d2) == -(n1 * d2) && (-n1) * (-d2) == n1 * d2)
        by (nonlinear_arith);
    assert((-n2) * d1 == -(n2 * d1) && n2 * (-d1) == -(n2 * d1) && (-n2) * (-d1) == n2 * d1)
        by (nonlinear_arith);
}

/// One step of the comparison, for positive denominators.
proof fn lemma_order_step_upright(a: Fraction, b: Fraction)
    requires
        a.den > 0,
        b.den > 0,
    ensures
        a.num / a.den < b.num / b.den ==> a.value_order(b) == Ordering::Less,
        a.num / a.den > b.num / b.den ==> a.value_order(b) == Ordering::Greater,
        a.num / a.den == b.num / b.den ==> a.num * b.den - b.num * a.den == (a.num % a.den) * b.den
            - (b.num % b.den) * a.den,
{
    let (n1, d1, n2, d2) = (a.num, a.den, b.num, b.den);
    let (q1, r1, q2, r2) = (n1 / d1, n1 % d1, n2 / d2, n2 % d2);
    vstd::arithmetic::div_mod::lemma_fundamental_div_mod(n1, d1);
    vstd::arithmetic::div_mod::lemma_fundamental_div_mod(n2, d2);
    assert(n1 * d2 - n2 * d1 == d1 * d2 * (q1 - q2) + r1 * d2 - r2 * d1) by (nonlinear_arith)
        requires
            n1 == d1 * q1 + r1,
            n2 == d2 * q2 + r2,
    ;
    assert(0 <= r1 * d2 < d1 * d2 && 0 <= r2 * d1 < d1 * d2) by (nonlinear_arith)
        requires
            0 <= r1 < d1,
            0 <= r2 < d2,
    ;
    if q1 < q2 {
        assert(d1 * d2 * (q1 - q2) <= -(d1 * d2)) by (nonlinear_arith)
            requires
                q1 - q2 <= -1,
                d1 > 0,
                d2 > 0,
        ;
    } else if q1 > q2 {
        assert(d1 * d2 * (q1 - q2) >= d1 * d2) by (nonlinear_arith)
            requires
                q1 - q2 >= 1,
                d1 > 0,
                d2 > 0,
        ;
    } else {
        assert(d1 * d2 * (q1 - q2) == 0) by (nonlinear_arith)
            requires
                q1 - q2 == 0,
        ;
    }
}

/// One step of the comparison: the quotients toward minus infinity decide
/// where they differ; where they agree the remainders decide, and two
/// remainders that are not zero hand the question on, reversed, to the
/// reciprocals of the fractional parts.
pub proof fn lemma_order_step(a: Fraction, b: Fraction)
    requires
        a.den != 0,
        b.den != 0,
    ensures
        floor_div(a.num, a.den) < floor_div(b.num, b.den) ==> a.value_order(b) == Ordering::Less,
        floor_div(a.num, a.den) > floor_div(b.num, b.den) ==> a.value_order(b)
            == Ordering::Greater,
        floor_div(a.num, a.den) == floor_div(b.num, b.den) ==> {
            let ra = floor_mod(a.num, a.den);
            let rb = floor_mod(b.num, b.den);
            &&& ra == 0 && rb == 0 ==> a.value_order(b) == Ordering::Equal
            &&& ra == 0 && rb != 0 ==> a.value_order(b) == Ordering::Less
            &&& ra != 0 && rb == 0 ==> a.value_order(b) == Ordering::Greater
            &&& ra != 0 && rb != 0 ==> a.value_order(b) == reversed(
                a.turned().value_order(b.turned()),
            )
        },
{
    let ua = a.upright();
    let ub = b.upright();
    lemma_value_order_upright(a, b);
    lemma_order_step_upright(ua, ub);
    lemma_floor_div_mod(a.num, a.den);
    lemma_floor_div_mod(b.num, b.den);
    let qa = floor_div(a.num, a.den);
    let qb = floor_div(b.num, b.den);
    assert(qa == ua.num / ua.den);
    assert(qb == ub.num / ub.den);
    if qa == qb {
        let ra = floor_mod(a.num, a.den);
        let rb = floor_mod(b.num, b.den);
        vstd::arithmetic::div_mod::lemma_fundamental_div_mod(ua.num, ua.den);
        vstd::arithmetic::div_mod::lemma_fundamental_div_mod(ub.num, ub.den);
        // the remainders of the upright fractions are the sizes of ra and rb
        let sa = ua.num % ua.den;
        let sb = ub.num % ub.den;
        assert(sa == abs(ra)) by (nonlinear_arith)
            requires
                a.num == a.den * qa + ra,
                ua.num == ua.den * qa + sa,
                ua.den == abs(a.den),
                ua.num == if a.den < 0 {
                    -a.num
                } else {
                    a.num
                },
                a.den > 0 ==> ra >= 0,
                a.den < 0 ==> ra <= 0,
                a.den != 0,
        ;
        assert(sb == abs(rb)) by (nonlinear_arith)
            requires
                b.num == b.den * qb + rb,
                ub.num == ub.den * qb + sb,
                ub.den == abs(b.den),
                ub.num == if b.den < 0 {
                    -b.num
                } else {
                    b.num
                },
                b.den > 0 ==> rb >= 0,
                b.den < 0 ==> rb <= 0,
                b.den != 0,
        ;
        let cross = sa * ub.den - sb * ua.den;
        assert(ua.num * ub.den - ub.num * ua.den == cross);
        if ra == 0 || rb == 0 {
            assert(sa == 0 ==> sa * ub.den == 0) by (nonlinear_arith);
            assert(sb == 0 ==> sb * ua.den == 0) by (nonlinear_arith);
            assert(sa > 0 ==> sa * ub.den > 0) by (nonlinear_arith)
                requires
                    ub.den > 0,
            ;
            assert(sb > 0 ==> sb * ua.den > 0) by (nonlinear_arith)
                requires
                    ua.den > 0,
            ;
        } else {
            let ta = a.turned();
            let tb = b.turned();
            lemma_value_order_upright(ta, tb);
            let uta = ta.upright();
            let utb = tb.upright();
            assert(uta == Fraction { num: ua.den, den: sa });
            assert(utb == Fraction { num: ub.den, den: sb });
            assert(uta.num * utb.den - utb.num * uta.den == -cross) by (nonlinear_arith)
                requires
                    uta.num == ua.den,
                    uta.den == sa,
                    utb.num == ub.den,
                    utb.den == sb,
                    cross == sa * ub.den - sb * ua.den,
            ;
        }
    }
}

/// Under equal denominators the numerators decide, the other way round
/// where the denominator is negative.
pub proof fn lemma_same_denominator(a: Fraction, b: Fraction)
    requires
        a.den == b.den,
        a.den != 0,
    ensures
        a.value_order(b) == if a.den < 0 {
            int_order(b.num, a.num)
        } else {
            int_order(a.num, b.num)
        },
{
    let (n1, n2, d) = (a.num, b.num, a.den);
    assert(n1 < n2 ==> (d > 0 ==> n1 * d < n2 * d) && (d < 0 ==> n1 * d > n2 * d))
        by (nonlinear_arith);
    assert(n1 > n2 ==> (d > 0 ==> n1 * d > n2 * d) && (d < 0 ==> n1 * d < n2 * d))
        by (nonlinear_arith);
}

/// Under equal numerators: two zeros are equal; denominators on two sides
/// of zero put the values on two sides of zero; denominators on one side
/// decide, the smaller one giving the greater value unless the numerator
/// is negative.
pub proof fn lemma_same_numerator(a: Fraction, b: Fraction)
    requires
        a.num == b.num,
        a.den != 0,
        b.den != 0,
    ensures
        a.num == 0 ==> a.value_order(b) == Ordering::Equal,
        a.num != 0 && (a.den > 0) != (b.den > 0) ==> a.value_order(b) == if (a.num < 0) != (a.den
            < 0) {
            Ordering::Less
        } else {
            Ordering::Greater
        },
        a.num != 0 && (a.den > 0) == (b.den > 0) ==> a.value_order(b) == if a.num < 0 {
            int_order(a.den, b.den)
        } else {
            int_order(b.den, a.den)
        },
{
    let (n, d1, d2) = (a.num, a.den, b.den);
    assert(n == 0 ==> n * d1 == 0 && n * d2 == 0) by (nonlinear_arith);
    assert(d1 < d2 ==> (n > 0 ==> n * d1 < n * d2) && (n < 0 ==> n * d1 > n * d2))
        by (nonlinear_arith);
    assert(d1 > d2 ==> (n > 0 ==> n * d1 > n * d2) && (n < 0 ==> n * d1 < n * d2))
        by (nonlinear_arith);
}

/// The sign of a product, from the factors: -1, 0 or 1.
pub open spec fn product_sign(x: int, y: int) -> int {
    if x == 0 || y == 0 {
        0
    } else if (x > 0) == (y > 0) {
        1
    } else {
        -1
    }
}

/// Where a denominator is zero, one of the cross products is zero, and the
/// signs of the two decide.
pub proof fn lemma_zero_denominator(a: Fraction, b: Fraction)
    requires
        a.den == 0 || b.den == 0,
    ensures
        a.value_order(b) == if (a.den > 0) == (b.den > 0) {
            int_order(product_sign(a.num, b.den), product_sign(b.num, a.den))
        } else {
            int_order(product_sign(b.num, a.den), product_sign(a.num, b.den))
        },
{
    lemma_product_sign(a.num, b.den);
    lemma_product_sign(b.num, a.den);
}

/// `product_sign` is the sign of the product.
pub proof fn lemma_product_sign(x: int, y: int)
    by (nonlinear_arith)
    ensures
        product_sign(x, y) == 0 <==> x * y == 0,
        product_sign(x, y) > 0 <==> x * y > 0,
        product_sign(x, y) < 0 <==> x * y < 0,
{
}

/// The order of two integers of a backing type.
fn order_of<T: Arith>(a: &T, b: &T) -> (r: Ordering)
    ensures
        r == int_order(a.val(), b.val()),
{
    if a.less(b) {
        Ordering::Less
    } else if a.same(b) {
        Ordering::Equal
    } else {
        Ordering::Greater
    }
}

/// `o`, reversed where `flipped` is set.
fn turn(o: Ordering, flipped: bool) -> (r: Ordering)
    ensures
        r == if flipped {
            reversed(o)
        } else {
            o
        },
{
    if flipped {
        match o {
            Ordering::Less => Ordering::Greater,
            Ordering::Equal => Ordering::Equal,
            Ordering::Greater => Ordering::Less,
        }
    } else {
        o
    }
}

/// The sign of the product of two integers of a backing type: -1, 0 or 1.
fn product_sign_of<T: Arith>(x: &T, y: &T) -> (r: i8)
    ensures
        r == product_sign(x.val(), y.val()),
{
    let zero = T::zero();
    if x.is_zero() || y.is_zero() {
        0
    } else if zero.less(x) == zero.less(y) {
        1
    } else {
        -1
    }
}

/// The order of two signs.
fn sign_order(p: i8, q: i8) -> (r: Ordering)
    ensures
        p < q ==> r == Ordering::Less,
        p == q ==> r == Ordering::Equal,
        p > q ==> r == Ordering::Greater,
{
    if p < q {
        Ordering::Less
    } else if p == q {
        Ordering::Equal
    } else {
        Ordering::Greater
    }
}

impl<T: Backing> Ratio<T> {
    /// Compares two ratios by their values, reduced or not, without
    /// overflow.
    ///
    /// Equal denominators leave the numerators to decide. Equal numerators
    /// leave the denominators to decide, unless the numerator is zero or
    /// the signs tell the values apart. Otherwise both ratios are split
    /// into a quotient toward minus infinity and a remainder: the
    /// quotients decide where they differ, else a remainder of zero marks
    /// the smaller ratio, and two remainders that are not zero hand the
    /// question on, reversed, to the reciprocals of the two fractional
    /// parts. Where a denominator is zero nothing is divided: one of the
    /// cross products is zero then, and the signs decide.
    pub fn cmp(&self, other: &Ratio<T>) -> (r: Ordering)
        ensures
            r == self@.value_order(other@),
    {
        let zero = T::zero();
        if self.denom().is_zero() || other.denom().is_zero() {
            proof {
                lemma_zero_denominator(self@, other@);
            }
            let p = product_sign_of(self.numer(), other.denom());
            let q = product_sign_of(other.numer(), self.denom());
            return if zero.less(self.denom()) == zero.less(other.denom()) {
                sign_order(p, q)
            } else {
                sign_order(q, p)
            };
        }
        let mut an = self.numer().dup();
        let mut ad = self.denom().dup();
        let mut bn = other.numer().dup();
        let mut bd = other.denom().dup();
        let mut flipped = false;
        loop
            invariant
                zero.val() == 0,
                ad.val() != 0,
                bd.val() != 0,
                self@.value_order(other@) == if flipped {
                    reversed((Fraction { num: an.val(), den: ad.val() }).value_order(
                        Fraction { num: bn.val(), den: bd.val() },
                    ))
                } else {
                    (Fraction { num: an.val(), den: ad.val() }).value_order(
                        Fraction { num: bn.val(), den: bd.val() },
                    )
                },
            decreases abs(ad.val()),
        {
            let ghost a = Fraction { num: an.val(), den: ad.val() };
            let ghost b = Fraction { num: bn.val(), den: bd.val() };
            if ad.same(&bd) {
                proof {
                    lemma_same_denominator(a, b);
                }
                let ord = if ad.less(&zero) {
                    order_of(&bn, &an)
                } else {
                    order_of(&an, &bn)
                };
                return turn(ord, flipped);
            }
            if an.same(&bn) {
                proof {
                    lemma_same_numerator(a, b);
                }
                if an.is_zero() {
                    return turn(Ordering::Equal, flipped);
                }
                let ord = if ad.less(&zero) != bd.less(&zero) {
                    // the values lie on two sides of zero
                    if an.less(&zero) != ad.less(&zero) {
                        Ordering::Less
                    } else {
                        Ordering::Greater
                    }
                } else if an.less(&zero) {
                    order_of(&ad, &bd)
                } else {
                    order_of(&bd, &ad)
                };
                return turn(ord, flipped);
            }
            proof {
                an.lemma_val_fits();
                ad.lemma_val_fits();
                bn.lemma_val_fits();
                bd.lemma_val_fits();
                T::lemma_fits_small();
                lemma_quotient_fits::<T>(a.num, a.den);
                lemma_quotient_fits::<T>(b.num, b.den);
                lemma_order_step(a, b);
                lemma_floor_div_mod(a.num, a.den);
                lemma_floor_div_mod(b.num, b.den);
            }
            match (an.checked_div_mod_floor(&ad), bn.checked_div_mod_floor(&bd)) {
                (None, None) => {
                    // both denominators would be -1, and equal denominators
                    // were dealt with above
                    assert(false);
                    return turn(Ordering::Equal, flipped);
                },
                (None, Some(qb)) => {
                    // a quotient too large for T is larger than any in T
                    proof {
                        qb.0.lemma_val_fits();
                        if -a.num <= qb.0.val() {
                            T::lemma_fits_between(0, -a.num, qb.0.val());
                        }
                    }
                    return turn(Ordering::Greater, flipped);
                },
                (Some(qa), None) => {
                    proof {
                        qa.0.lemma_val_fits();
                        if -b.num <= qa.0.val() {
                            T::lemma_fits_between(0, -b.num, qa.0.val());
                        }
                    }
                    return turn(Ordering::Less, flipped);
                },
                (Some(qa), Some(qb)) => {
                    let (a_int, a_rem) = qa;
                    let (b_int, b_rem) = qb;
                    if a_int.less(&b_int) {
                        return turn(Ordering::Less, flipped);
                    }
                    if b_int.less(&a_int) {
                        return turn(Ordering::Greater, flipped);
                    }
                    match (a_rem.is_zero(), b_rem.is_zero()) {
                        (true, true) => {
                            return turn(Ordering::Equal, flipped);
                        },
                        (true, false) => {
                            return turn(Ordering::Less, flipped);
                        },
                        (false, true) => {
                            return turn(Ordering::Greater, flipped);
                        },
                        (false, false) => {
                            an = ad;
                            ad = a_rem;
                            bn = bd;
                            bd = b_rem;
                            flipped = !flipped;
                        },
                    }
                },
            }
        }
    }
}

impl<T: Backing> Ratio<T> {
    /// The positive difference: `self - other` where `self` is the
    /// greater, else zero.
    pub fn abs_sub(&self, other: &Ratio<T>) -> (r: Ratio<T>)
        requires
            self@.value_order(other@) == Ordering::Greater ==> Self::can_sub(self@, other@),
        ensures
            r@ == if self@.value_order(other@) == Ordering::Greater {
                self@.difference(other@).reduced()
            } else {
                Fraction::integer(0)
            },
    {
        match self.cmp(other) {
            Ordering::Greater => self.clone() - other.clone(),
            _ => Ratio::zero(),
        }
    }
}

impl<T: Backing> PartialEq for Ratio<T> {
    fn eq(&self, other: &Self) -> (r: bool) {
        match self.cmp(other) {
            Ordering::Equal => true,
            _ => false,
        }
    }
}

impl<T: Backing> PartialEqSpecImpl for Ratio<T> {
    open spec fn obeys_eq_spec() -> bool {
        true
    }

    open spec fn eq_spec(&self, other: &Self) -> bool {
        self@.value_order(other@) == Ordering::Equal
    }
}

impl<T: Backing> Eq for Ratio<T> {

}

impl<T: Backing> PartialOrd for Ratio<T> {
    fn partial_cmp(&self, other: &Self) -> (r: Option<Ordering>) {
        Some(self.cmp(other))
    }
}

impl<T: Backing> PartialOrdSpecImpl for Ratio<T> {
    open spec fn obeys_partial_cmp_spec() -> bool {
        true
    }

    open spec fn partial_cmp_spec(&self, other: &Self) -> Option<Ordering> {
        Some(self@.value_order(other@))
    }
}

} // verus!
