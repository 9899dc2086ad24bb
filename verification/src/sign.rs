//! Sign, absolute value and powers of a ratio.

use vstd::prelude::*;
use vstd::arithmetic::power::pow;
use std::ops::Neg;
use crate::backing::Backing;
use crate::fraction::Fraction;
use crate::ratio::Ratio;

verus! {

impl Fraction {
    /// Numerator and denominator are on the same side of zero.
    pub open spec fn is_positive(self) -> bool {
        (self.num > 0 && self.den > 0) || (self.num < 0 && self.den < 0)
    }

    /// Numerator and denominator are on opposite sides of zero.
    pub open spec fn is_negative(self) -> bool {
        (self.num < 0 && self.den > 0) || (self.num > 0 && self.den < 0)
    }

    /// Both parts raised to the power `e`.
    pub open spec fn power(self, e: nat) -> Fraction {
        Fraction { num: pow(self.num, e), den: pow(self.den, e) }
    }

    /// Numerator and denominator exchanged.
    pub open spec fn swapped(self) -> Fraction {
        Fraction { num: self.den, den: self.num }
    }
}

/// The size of an exponent.
pub open spec fn exponent_size(expon: i32) -> nat {
    if expon < 0 {
        (-expon) as nat
    } else {
        expon as nat
    }
}

/// The size of an exponent, which a `u32` always holds.
fn exponent_size_of(expon: i32) -> (r: u32)
    ensures
        r == exponent_size(expon),
{
    if expon == i32::MIN {
        2147483648u32
    } else if expon < 0 {
        (-expon) as u32
    } else {
        expon as u32
    }
}

impl<T: Backing> Ratio<T> {
    /// Whether the value is greater than zero.
    pub fn is_positive(&self) -> (r: bool)
        ensures
            r == self@.is_positive(),
    {
        let zero = T::zero();
        (zero.less(self.numer()) && zero.less(self.denom())) || (self.numer().less(&zero)
            && self.denom().less(&zero))
    }

    /// Whether the value is less than zero.
    pub fn is_negative(&self) -> (r: bool)
        ensures
            r == self@.is_negative(),
    {
        let zero = T::zero();
        (self.numer().less(&zero) && zero.less(self.denom())) || (zero.less(self.numer())
            && self.denom().less(&zero))
    }

    /// The absolute value: `self` with the numerator negated where the
    /// value is negative, else `self`.
    pub fn abs(&self) -> (r: Ratio<T>)
        requires
            self@.is_negative() ==> T::fits(-self@.num),
        ensures
            r@ == if self@.is_negative() {
                self@.negated()
            } else {
                self@
            },
    {
        if self.is_negative() {
            self.clone().neg()
        } else {
            self.clone()
        }
    }

    /// 1 for a positive value, 0 for a numerator of zero, -1 else.
    pub fn signum(&self) -> (r: Ratio<T>)
        requires
            self@.den != 0 || T::fits(-1),
        ensures
            r@ == Fraction::integer(
                if self@.is_positive() {
                    1
                } else if self@.num == 0 {
                    0
                } else {
                    -1
                },
            ),
    {
        proof {
            // a negative part shows that the type has room for -1
            T::lemma_fits_small();
            self.lemma_parts_fit();
            if self@.num < 0 {
                T::lemma_fits_between(self@.num, -1, 0);
            }
            if self@.den < 0 {
                T::lemma_fits_between(self@.den, -1, 0);
            }
        }
        if self.is_positive() {
            Ratio::one()
        } else if self.is_zero() {
            Ratio::zero()
        } else {
            Ratio::<T>::one().neg()
        }
    }

    /// The reciprocal; see `recip`.
    pub fn inv(self) -> (r: Ratio<T>)
        requires
            self@.num != 0,
            self@.num < 0 ==> T::fits(-self@.num) && T::fits(-self@.den),
        ensures
            r@ == self@.reciprocal(),
    {
        self.recip()
    }

    /// `self` raised to the power `expon`: both parts raised to it, and
    /// exchanged where it is negative. The result is not reduced again, and
    /// a negative power of zero has the denominator zero.
    pub fn pow(&self, expon: i32) -> (r: Ratio<T>)
        requires
            expon != 0 ==> T::fits(pow(self@.num, exponent_size(expon))) && T::fits(
                pow(self@.den, exponent_size(expon)),
            ),
        ensures
            expon == 0 ==> r@ == Fraction::integer(1),
            expon > 0 ==> r@ == self@.power(exponent_size(expon)),
            expon < 0 ==> r@ == self@.power(exponent_size(expon)).swapped(),
    {
        if expon == 0 {
            return Ratio::one();
        }
        let e = exponent_size_of(expon);
        if expon < 0 {
            Ratio::new_raw(self.denom().pow(e), self.numer().pow(e))
        } else {
            Ratio::new_raw(self.numer().pow(e), self.denom().pow(e))
        }
    }
}

} // verus!
