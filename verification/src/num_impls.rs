//! The traits of `num_traits` for a ratio, each method handed on to the
//! method of the same name on `Ratio`.

use vstd::prelude::*;
use vstd::arithmetic::power::pow;
use std::cmp::Ordering;
use num_traits::{CheckedAdd, CheckedDiv, CheckedMul, CheckedSub, Inv, Num, One, Pow, Signed, Zero};
use crate::backing::Backing;
use crate::fraction::Fraction;
use crate::parse::ParseRatioError;
use crate::ratio::Ratio;
use crate::sign::exponent_size;

verus! {

impl<T: Backing> Zero for Ratio<T> {
    fn zero() -> (r: Ratio<T>)
        ensures
            r@ == Fraction::integer(0),
    {
        Ratio::<T>::zero()
    }

    fn is_zero(&self) -> (r: bool)
        ensures
            r == (self@.num == 0),
    {
        Ratio::<T>::is_zero(self)
    }
}

impl<T: Backing> One for Ratio<T> {
    fn one() -> (r: Ratio<T>)
        ensures
            r@ == Fraction::integer(1),
    {
        Ratio::<T>::one()
    }

    fn is_one(&self) -> (r: bool)
        ensures
            r == (self@.num == self@.den),
    {
        Ratio::<T>::is_one(self)
    }
}

impl<T: Backing> Num for Ratio<T> {
    type FromStrRadixErr = ParseRatioError;

    fn from_str_radix(s: &str, radix: u32) -> (r: Result<Ratio<T>, ParseRatioError>)
        requires
            2 <= radix <= 36,
        ensures
            Ratio::<T>::result_view(r) == Ratio::<T>::parsed_radix(s@, radix as int),
    {
        Ratio::<T>::from_str_radix(s, radix)
    }
}

impl<T: Backing> Signed for Ratio<T> {
    fn abs(&self) -> (r: Ratio<T>)
        requires
            self@.is_negative() ==> T::fits(-self@.num),
        ensures
            r@ == if self@.is_negative() {
                self@.negated()
            } else {
                self@
            },
    {
        Ratio::<T>::abs(self)
    }

    fn abs_sub(&self, other: &Ratio<T>) -> (r: Ratio<T>)
        requires
            self@.value_order(other@) == Ordering::Greater ==> Ratio::<T>::can_sub(self@, other@),
        ensures
            r@ == if self@.value_order(other@) == Ordering::Greater {
                self@.difference(other@).reduced()
            } else {
                Fraction::integer(0)
            },
    {
        Ratio::<T>::abs_sub(self, other)
    }

    fn signum(&self) -> (r: Ratio<T>)
        requires
            self@.den != 0 || T::fits(-1),
        ensures
            r@ == Fraction::integer(
                if self@.is_positive() {
                    1
                } else if self@.num == 0 {
                    0
                } else {
                    -1
                },
            ),
    {
        Ratio::<T>::signum(self)
    }

    fn is_positive(&self) -> (r: bool)
        ensures
            r == self@.is_positive(),
    {
        Ratio::<T>::is_positive(self)
    }

    fn is_negative(&self) -> (r: bool)
        ensures
            r == self@.is_negative(),
    {
        Ratio::<T>::is_negative(self)
    }
}

impl<T: Backing> Inv for Ratio<T> {
    type Output = Ratio<T>;

    fn inv(self) -> (r: Ratio<T>)
        requires
            self@.num != 0,
            self@.num < 0 ==> T::fits(-self@.num) && T::fits(-self@.den),
        ensures
            r@ == self@.reciprocal(),
    {
        self.recip()
    }
}

impl<'a, T: Backing> Inv for &'a Ratio<T> {
    type Output = Ratio<T>;

    fn inv(self) -> (r: Ratio<T>)
        requires
            self@.num != 0,
            self@.num < 0 ==> T::fits(-self@.num) && T::fits(-self@.den),
        ensures
            r@ == self@.reciprocal(),
    {
        self.recip()
    }
}

impl<T: Backing> CheckedAdd for Ratio<T> {
    fn checked_add(&self, rhs: &Ratio<T>) -> (r: Option<Ratio<T>>)
        ensures
            r is Some <==> Ratio::<T>::can_add(self@, rhs@),
            r matches Some(v) ==> v@ == self@.sum(rhs@).reduced(),
    {
        Ratio::<T>::checked_add(self, rhs)
    }
}

impl<T: Backing> CheckedSub for Ratio<T> {
    fn checked_sub(&self, rhs: &Ratio<T>) -> (r: Option<Ratio<T>>)
        ensures
            r is Some <==> Ratio::<T>::can_sub(self@, rhs@),
            r matches Some(v) ==> v@ == self@.difference(rhs@).reduced(),
    {
        Ratio::<T>::checked_sub(self, rhs)
    }
}

impl<T: Backing> CheckedMul for Ratio<T> {
    fn checked_mul(&self, rhs: &Ratio<T>) -> (r: Option<Ratio<T>>)
        ensures
            r is Some <==> Ratio::<T>::can_mul(self@, rhs@),
            r matches Some(v) ==> v@ == self@.product(rhs@).reduced(),
    {
        Ratio::<T>::checked_mul(self, rhs)
    }
}

impl<T: Backing> CheckedDiv for Ratio<T> {
    fn checked_div(&self, rhs: &Ratio<T>) -> (r: Option<Ratio<T>>)
        ensures
            r is Some <==> Ratio::<T>::can_div(self@, rhs@),
            r matches Some(v) ==> v@ == self@.quotient(rhs@).reduced(),
    {
        Ratio::<T>::checked_div(self, rhs)
    }
}

impl<T: Backing> Pow<i32> for Ratio<T> {
    type Output = Ratio<T>;

    fn pow(self, expon: i32) -> (r: Ratio<T>)
        requires
            expon != 0 ==> T::fits(pow(self@.num, exponent_size(expon))) && T::fits(
                pow(self@.den, exponent_size(expon)),
            ),
        ensures
            expon == 0 ==> r@ == Fraction::integer(1),
            expon > 0 ==> r@ == self@.power(exponent_size(expon)),
            expon < 0 ==> r@ == self@.power(exponent_size(expon)).swapped(),
    {
        Ratio::<T>::pow(&self, expon)
    }
}

impl<'a, T: Backing> Pow<i32> for &'a Ratio<T> {
    type Output = Ratio<T>;

    fn pow(self, expon: i32) -> (r: Ratio<T>)
        requires
            expon != 0 ==> T::fits(pow(self@.num, exponent_size(expon))) && T::fits(
                pow(self@.den, exponent_size(expon)),
            ),
        ensures
            expon == 0 ==> r@ == Fraction::integer(1),
            expon > 0 ==> r@ == self@.power(exponent_size(expon)),
            expon < 0 ==> r@ == self@.power(exponent_size(expon)).swapped(),
    {
        Ratio::<T>::pow(self, expon)
    }
}

impl<'a, T: Backing> Pow<&'a i32> for Ratio<T> {
    type Output = Ratio<T>;

    fn pow(self, expon: &'a i32) -> (r: Ratio<T>)
        requires
            *expon != 0 ==> T::fits(pow(self@.num, exponent_size(*expon))) && T::fits(
                pow(self@.den, exponent_size(*expon)),
            ),
        ensures
            *expon == 0 ==> r@ == Fraction::integer(1),
            *expon > 0 ==> r@ == self@.power(exponent_size(*expon)),
            *expon < 0 ==> r@ == self@.power(exponent_size(*expon)).swapped(),
    {
        Ratio::<T>::pow(&self, *expon)
    }
}

} // verus!
