//! The ratio of two integers: construction, reduction to lowest terms, and
//! decomposition into integral and fractional part.

use vstd::prelude::*;
use crate::backing::Backing;
use crate::euclid::lemma_quotient_fits;
use crate::fraction::{lemma_exact_div_abs, lemma_reduced, Fraction};
use crate::math::{
    abs, ceil_div, floor_div, gcd, lemma_ceil_from_floor, lemma_floor_div_mod,
    lemma_half, lemma_trunc_div_bounds, lemma_trunc_div_rem, round_div, trunc_div, trunc_rem,
};

verus! {

/// The ratio between two integers of the backing type `T`.
///
/// A ratio made by `new` or by arithmetic is in lowest terms with a
/// positive denominator. One made by `new_raw` is kept as given, whatever
/// it is given; a denominator of zero is then left out by the `requires`
/// of the operations that divide by it.
#[derive(Debug)]
pub struct Ratio<T: Backing> {
    numer: T,
    denom: T,
}

/// A ratio of machine-sized integers.
pub type Rational = Ratio<isize>;

/// A ratio of 32-bit integers.
pub type Rational32 = Ratio<i32>;

/// A ratio of 64-bit integers.
pub type Rational64 = Ratio<i64>;

impl<T: Backing> View for Ratio<T> {
    type V = Fraction;

    closed spec fn view(&self) -> Fraction {
        Fraction { num: self.numer.val(), den: self.denom.val() }
    }
}

impl<T: Backing> Clone for Ratio<T> {
    fn clone(&self) -> (r: Self)
        ensures
            r@ == self@,
    {
        Ratio { numer: self.numer.dup(), denom: self.denom.dup() }
    }
}

impl<T: Backing + Copy> Copy for Ratio<T> {

}

impl<T: Backing> Ratio<T> {
    /// Both parts of a ratio are integers that `T` holds.
    pub proof fn lemma_parts_fit(&self)
        ensures
            T::fits(self@.num),
            T::fits(self@.den),
    {
        self.numer.lemma_val_fits();
        self.denom.lemma_val_fits();
    }

    /// Whether `T` can hold `f` in lowest terms, and the greatest common
    /// divisor on the way there. It always can where `f.den` is positive
    /// and both parts fit.
    pub open spec fn can_reduce(f: Fraction) -> bool {
        &&& f.den != 0
        &&& T::fits(gcd(f.num, f.den))
        &&& T::fits(f.reduced().num)
        &&& T::fits(f.reduced().den)
    }

    /// A fraction with a positive denominator whose parts fit can be
    /// reduced, and so can one whose parts can both be negated.
    pub proof fn lemma_can_reduce(f: Fraction)
        requires
            T::fits(f.num),
            T::fits(f.den),
            f.den > 0 || (f.den < 0 && T::fits(-f.num) && T::fits(-f.den)),
        ensures
            Self::can_reduce(f),
    {
        lemma_reduced(f);
        T::lemma_fits_small();
        let g = gcd(f.num, f.den);
        lemma_exact_div_abs(f.num, g);
        lemma_exact_div_abs(f.den, g);
        lemma_trunc_div_bounds(abs(f.num), g);
        lemma_trunc_div_bounds(abs(f.den), g);
        if f.den > 0 {
            T::lemma_fits_between(0, g, f.den);
            T::lemma_fits_between(0, f.den / g, f.den);
            if f.num >= 0 {
                T::lemma_fits_between(0, f.num / g, f.num);
            } else {
                T::lemma_fits_between(f.num, f.num / g, 0);
            }
        } else {
            T::lemma_fits_between(0, g, -f.den);
            T::lemma_fits_between(0, -(f.den / g), -f.den);
            if f.num >= 0 {
                T::lemma_fits_between(-f.num, -(f.num / g), 0);
            } else {
                T::lemma_fits_between(0, -(f.num / g), -f.num);
            }
        }
    }

    /// The ratio `numer / denom` in lowest terms with a positive denominator.
    pub fn new(numer: T, denom: T) -> (r: Ratio<T>)
        requires
            Self::can_reduce(Fraction { num: numer.val(), den: denom.val() }),
        ensures
            r@ == (Fraction { num: numer.val(), den: denom.val() }).reduced(),
            r@.is_reduced(),
    {
        let mut ret = Ratio::new_raw(numer, denom);
        ret.reduce();
        ret
    }

    /// The ratio `numer / denom` in lowest terms with a positive
    /// denominator, or `None` where the denominator is zero or `T` cannot
    /// hold the reduced ratio or the greatest common divisor.
    pub fn checked_new(numer: T, denom: T) -> (r: Option<Ratio<T>>)
        ensures
            r is Some <==> Self::can_reduce(Fraction { num: numer.val(), den: denom.val() }),
            r matches Some(v) ==> v@ == (Fraction { num: numer.val(), den: denom.val() }).reduced(),
    {
        if denom.is_zero() {
            return None;
        }
        let ghost f = Fraction { num: numer.val(), den: denom.val() };
        let ghost g = gcd(f.num, f.den);
        proof {
            numer.lemma_val_fits();
            denom.lemma_val_fits();
            T::lemma_fits_small();
            lemma_reduced(f);
            lemma_gcd_of_divisor(f.num, f.den);
            lemma_quotient_fits::<T>(f.num, f.den);
            lemma_trunc_div_rem(f.num, f.den);
        }
        let zero = T::zero();
        if denom.less(&zero) && zero.checked_minus(&denom).is_none() {
            // the greatest common divisor is the size of the denominator,
            // which does not fit, where the denominator divides the numerator
            match numer.checked_div_rem(&denom) {
                None => {},
                Some((_, rem)) => {
                    if rem.is_zero() {
                        return None;
                    }
                },
            }
        }
        proof {
            if f.den < 0 {
                T::lemma_fits_between(f.den, -1, 0);
                T::lemma_fits_negation(f.den);
                if g < -f.den {
                    T::lemma_fits_between(0, g, -f.den - 1);
                }
            } else {
                T::lemma_fits_between(0, g, f.den);
            }
            T::lemma_fits_between(0, g, g);
            lemma_quotient_fits::<T>(f.num, g);
            lemma_quotient_fits::<T>(f.den, g);
            lemma_exact_trunc(f.num, g);
            lemma_exact_trunc(f.den, g);
        }
        let g = numer.gcd(&denom);
        let n = numer.div_trunc(&g);
        let d = denom.div_trunc(&g);
        if d.less(&zero) {
            match (zero.checked_minus(&n), zero.checked_minus(&d)) {
                (Some(n), Some(d)) => Some(Ratio { numer: n, denom: d }),
                _ => None,
            }
        } else {
            Some(Ratio { numer: n, denom: d })
        }
    }

    /// The ratio `t / 1`.
    pub fn from_integer(t: T) -> (r: Ratio<T>)
        ensures
            r@ == Fraction::integer(t.val()),
    {
        Ratio::new_raw(t, T::one())
    }

    /// The ratio `numer / denom` as given: nothing is looked at, and
    /// nothing reduced.
    pub fn new_raw(numer: T, denom: T) -> (r: Ratio<T>)
        ensures
            r@ == (Fraction { num: numer.val(), den: denom.val() }),
    {
        Ratio { numer, denom }
    }

    /// The value rounded toward zero, as an integer.
    pub fn to_integer(&self) -> (r: T)
        requires
            self@.den != 0,
            T::fits(trunc_div(self@.num, self@.den)),
        ensures
            r.val() == trunc_div(self@.num, self@.den),
    {
        self.trunc().numer
    }

    /// The numerator.
    pub fn numer(&self) -> (r: &T)
        ensures
            r.val() == self@.num,
    {
        &self.numer
    }

    /// The denominator.
    pub fn denom(&self) -> (r: &T)
        ensures
            r.val() == self@.den,
    {
        &self.denom
    }

    /// Numerator and denominator, by value.
    pub fn into_pair(self) -> (r: (T, T))
        ensures
            r.0.val() == self@.num,
            r.1.val() == self@.den,
    {
        (self.numer, self.denom)
    }

    /// Whether the denominator is one.
    pub fn is_integer(&self) -> (r: bool)
        ensures
            r == (self@.den == 1),
    {
        self.denom.same(&T::one())
    }

    /// Puts `self` into lowest terms with a positive denominator.
    pub(crate) fn reduce(&mut self)
        requires
            Self::can_reduce(old(self)@),
        ensures
            final(self)@ == old(self)@.reduced(),
            final(self)@.is_reduced(),
    {
        proof {
            let f = self@;
            let g = gcd(f.num, f.den);
            lemma_reduced(f);
            self.numer.lemma_val_fits();
            self.denom.lemma_val_fits();
            T::lemma_fits_small();
            T::lemma_fits_between(0, g, g);
            lemma_quotient_fits::<T>(f.num, g);
            lemma_quotient_fits::<T>(f.den, g);
            lemma_exact_trunc(f.num, g);
            lemma_exact_trunc(f.den, g);
        }
        let g = self.numer.gcd(&self.denom);
        let n = self.numer.div_trunc(&g);
        let d = self.denom.div_trunc(&g);
        let zero = T::zero();
        if d.less(&zero) {
            *self = Ratio { numer: zero.minus(&n), denom: zero.minus(&d) };
        } else {
            *self = Ratio { numer: n, denom: d };
        }
    }

    /// A copy of `self` in lowest terms with a positive denominator.
    pub fn reduced(&self) -> (r: Ratio<T>)
        requires
            Self::can_reduce(self@),
        ensures
            r@ == self@.reduced(),
            r@.is_reduced(),
    {
        let mut ret = Ratio::new_raw(self.numer.dup(), self.denom().dup());
        ret.reduce();
        ret
    }

    /// The reciprocal, with the sign kept in the numerator.
    pub fn recip(&self) -> (r: Ratio<T>)
        requires
            self@.num != 0,
            self@.num < 0 ==> T::fits(-self@.num) && T::fits(-self@.den),
        ensures
            r@ == self@.reciprocal(),
    {
        let zero = T::zero();
        if zero.less(&self.numer) {
            Ratio::new_raw(self.denom.dup(), self.numer.dup())
        } else {
            Ratio::new_raw(zero.minus(&self.denom), zero.minus(&self.numer))
        }
    }

    /// The value rounded toward minus infinity.
    pub fn floor(&self) -> (r: Ratio<T>)
        requires
            self@.den != 0,
            T::fits(floor_div(self@.num, self@.den)),
        ensures
            r@ == Fraction::integer(floor_div(self@.num, self@.den)),
    {
        let (q, _) = self.numer.checked_div_mod_floor(self.denom()).unwrap();
        Ratio::from_integer(q)
    }

    /// The value rounded toward plus infinity.
    pub fn ceil(&self) -> (r: Ratio<T>)
        requires
            self@.den != 0,
            T::fits(ceil_div(self@.num, self@.den)),
        ensures
            r@ == Fraction::integer(ceil_div(self@.num, self@.den)),
    {
        proof {
            self.numer.lemma_val_fits();
            self.denom.lemma_val_fits();
            lemma_quotient_fits::<T>(self@.num, self@.den);
            lemma_ceil_from_floor(self@.num, self@.den);
            lemma_floor_div_mod(self@.num, self@.den);
        }
        let (q, rem) = self.numer.checked_div_mod_floor(self.denom()).unwrap();
        if rem.is_zero() {
            Ratio::from_integer(q)
        } else {
            Ratio::from_integer(q.plus(&T::one()))
        }
    }

    /// The value rounded to the nearest integer, halves away from zero.
    ///
    /// The remainder of the division toward zero is held against half the
    /// denominator, one more where the denominator is odd; twice the
    /// remainder is never formed.
    pub fn round(&self) -> (r: Ratio<T>)
        requires
            self@.den != 0,
            T::fits(trunc_div(self@.num, self@.den)),
            T::fits(round_div(self@.num, self@.den)),
        ensures
            r@ == Fraction::integer(round_div(self@.num, self@.den)),
    {
        let zero = T::zero();
        let one = T::one();
        proof {
            self.numer.lemma_val_fits();
            self.denom.lemma_val_fits();
            T::lemma_fits_small();
            lemma_trunc_div_rem(self@.num, self@.den);
            lemma_quotient_fits::<T>(self@.den, 2);
            lemma_half(self@.den);
        }
        let two = one.plus(&one);
        let whole = self.numer.div_trunc(&self.denom);
        let rem = self.numer.rem_trunc(&self.denom);
        let half = self.denom.div_trunc(&two);
        let even = self.denom.is_even();
        let half_or_larger = if zero.less(&self.denom) {
            proof {
                if rem.val() < 0 {
                    T::lemma_fits_between(0, -rem.val(), self@.den);
                }
                T::lemma_fits_between(0, half.val() + 1, self@.den);
            }
            // the size of the remainder against half of a positive denominator
            let size = if rem.less(&zero) {
                zero.minus(&rem)
            } else {
                rem
            };
            if even {
                !size.less(&half)
            } else {
                !size.less(&half.plus(&one))
            }
        } else {
            proof {
                rem.lemma_val_fits();
                T::lemma_fits_between(self@.den, -1, 0);
                T::lemma_fits_negation(rem.val());
            }
            // both negated: a negative denominator may have no positive twin
            let size = if zero.less(&rem) {
                zero.minus(&rem)
            } else {
                rem
            };
            if even {
                !half.less(&size)
            } else {
                size.less(&half)
            }
        };
        assert(half_or_larger == (2 * abs(trunc_rem(self@.num, self@.den)) >= abs(self@.den)));
        if half_or_larger {
            if self.numer.less(&zero) == self.denom.less(&zero) {
                Ratio::from_integer(whole.plus(&one))
            } else {
                Ratio::from_integer(whole.minus(&one))
            }
        } else {
            Ratio::from_integer(whole)
        }
    }

    /// The value rounded toward zero.
    pub fn trunc(&self) -> (r: Ratio<T>)
        requires
            self@.den != 0,
            T::fits(trunc_div(self@.num, self@.den)),
        ensures
            r@ == Fraction::integer(trunc_div(self@.num, self@.den)),
    {
        Ratio::from_integer(self.numer.div_trunc(self.denom()))
    }

    /// The fractional part that `trunc` leaves: the remainder of the
    /// division toward zero, over the denominator of `self`.
    pub fn fract(&self) -> (r: Ratio<T>)
        requires
            self@.den != 0,
            T::fits(trunc_div(self@.num, self@.den)),
        ensures
            r@ == (Fraction { num: trunc_rem(self@.num, self@.den), den: self@.den }),
    {
        Ratio::new_raw(self.numer.rem_trunc(self.denom()), self.denom().dup())
    }
}

/// The greatest common divisor is the size of the second number where that
/// divides the first, and at most half of it where it does not.
pub proof fn lemma_gcd_of_divisor(n: int, d: int)
    requires
        d != 0,
    ensures
        trunc_rem(n, d) == 0 ==> gcd(n, d) == abs(d),
        trunc_rem(n, d) != 0 ==> 2 * gcd(n, d) <= abs(d),
{
    let f = Fraction { num: n, den: d };
    lemma_reduced(f);
    lemma_trunc_div_rem(n, d);
    let g = gcd(n, d);
    let a = abs(n) as nat;
    let b = abs(d) as nat;
    if trunc_rem(n, d) == 0 {
        assert(a % b == 0);
        assert(crate::math::gcd_nat(a, b) == crate::math::gcd_nat(b, 0));
    } else {
        lemma_exact_div_abs(d, g);
        let k = abs(d) / g;
        vstd::arithmetic::div_mod::lemma_fundamental_div_mod(abs(d), g);
        assert(k >= 1) by (nonlinear_arith)
            requires
                abs(d) == g * k,
                abs(d) > 0,
                g > 0,
        ;
        if k == 1 {
            // then g == |d| divides n, against the remainder
            assert(g == abs(d)) by (nonlinear_arith)
                requires
                    abs(d) == g * k,
                    k == 1,
            ;
            assert(false);
        }
        assert(2 * g <= abs(d)) by (nonlinear_arith)
            requires
                abs(d) == g * k,
                k >= 2,
                g > 0,
        ;
    }
}

/// Where the divisor divides exactly, rounding toward zero rounds nothing.
pub proof fn lemma_exact_trunc(v: int, g: int)
    requires
        g > 0,
        v % g == 0,
    ensures
        trunc_div(v, g) == v / g,
{
    vstd::arithmetic::div_mod::lemma_fundamental_div_mod(v, g);
    if v < 0 {
        let k = v / g;
        assert(-v == (-k) * g + 0) by (nonlinear_arith)
            requires
                v == g * k,
        ;
        vstd::arithmetic::div_mod::lemma_fundamental_div_mod_converse(-v, g, -k, 0);
    }
}

} // verus!
