//! Arithmetic on ratios by cross-multiplication: `a/b + c/d` is
//! `(a*d + b*c) / (b*d)` in lowest terms, and likewise for the others.

use vstd::prelude::*;
use vstd::arithmetic::mul::lemma_mul_nonzero;
use std::ops::{
    Add, AddAssign, Div, DivAssign, Mul, MulAssign, Neg, Rem, RemAssign, Sub, SubAssign,
};
use vstd::std_specs::ops::{
    AddSpecImpl, DivSpecImpl, MulSpecImpl, NegSpecImpl, RemSpecImpl, SubSpecImpl,
};
use crate::backing::Backing;
use crate::fraction::Fraction;
use crate::math::{trunc_div, trunc_rem};
use crate::ratio::Ratio;

verus! {

impl Fraction {
    /// The unreduced remainder `(a*d % b*c) / (b*d)`, the remainder taken
    /// as the division toward zero leaves it.
    pub open spec fn remainder(self, other: Fraction) -> Fraction {
        Fraction {
            num: trunc_rem(self.num * other.den, self.den * other.num),
            den: self.den * other.den,
        }
    }
}

impl<T: Backing> Ratio<T> {
    /// Whether `T` can hold both parts of `f`, and `f` in lowest terms.
    pub open spec fn holds(f: Fraction) -> bool {
        &&& T::fits(f.num)
        &&& T::fits(f.den)
        &&& Self::can_reduce(f)
    }

    /// Room for both cross products `a*d` and `b*c`.
    pub open spec fn crosses_fit(a: Fraction, b: Fraction) -> bool {
        &&& T::fits(a.num * b.den)
        &&& T::fits(a.den * b.num)
    }

    /// What `a + b` needs: room for the cross products, for the sum and for
    /// its lowest terms.
    pub open spec fn can_add(a: Fraction, b: Fraction) -> bool {
        Self::crosses_fit(a, b) && Self::holds(a.sum(b))
    }

    /// What `a - b` needs: room for the cross products, for the difference
    /// and for its lowest terms.
    pub open spec fn can_sub(a: Fraction, b: Fraction) -> bool {
        Self::crosses_fit(a, b) && Self::holds(a.difference(b))
    }

    /// What `a * b` needs: room for the product and for its lowest terms.
    pub open spec fn can_mul(a: Fraction, b: Fraction) -> bool {
        Self::holds(a.product(b))
    }

    /// What `a / b` needs: a divisor that is not zero, and room for the
    /// quotient and for its lowest terms.
    pub open spec fn can_div(a: Fraction, b: Fraction) -> bool {
        Self::holds(a.quotient(b))
    }

    /// What `a % b` needs: room for both cross products, a divisor that is
    /// not zero, and a quotient of the two that fits.
    pub open spec fn can_rem(a: Fraction, b: Fraction) -> bool {
        &&& Self::crosses_fit(a, b)
        &&& b.num != 0
        &&& T::fits(trunc_div(a.num * b.den, a.den * b.num))
        &&& Self::holds(a.remainder(b))
    }

    /// The ratio 0/1.
    pub fn zero() -> (r: Ratio<T>)
        ensures
            r@ == Fraction::integer(0),
    {
        Ratio::new_raw(T::zero(), T::one())
    }

    /// Whether the numerator is zero.
    pub fn is_zero(&self) -> (r: bool)
        ensures
            r == (self@.num == 0),
    {
        self.numer().is_zero()
    }

    /// The ratio 1/1.
    pub fn one() -> (r: Ratio<T>)
        ensures
            r@ == Fraction::integer(1),
    {
        Ratio::new_raw(T::one(), T::one())
    }

    /// Whether numerator and denominator are equal.
    pub fn is_one(&self) -> (r: bool)
        ensures
            r == (self@.num == self@.den),
    {
        self.numer().same(self.denom())
    }

    /// `self + rhs`, or `None` where a product, the sum or the reduced
    /// result does not fit in `T`.
    pub fn checked_add(&self, rhs: &Ratio<T>) -> (r: Option<Ratio<T>>)
        ensures
            r is Some <==> Self::can_add(self@, rhs@),
            r matches Some(v) ==> v@ == self@.sum(rhs@).reduced(),
    {
        let ad = match self.numer().checked_times(rhs.denom()) {
            Some(v) => v,
            None => return None,
        };
        let bc = match self.denom().checked_times(rhs.numer()) {
            Some(v) => v,
            None => return None,
        };
        let bd = match self.denom().checked_times(rhs.denom()) {
            Some(v) => v,
            None => return None,
        };
        let sum = match ad.checked_plus(&bc) {
            Some(v) => v,
            None => return None,
        };
        Ratio::checked_new(sum, bd)
    }

    /// `self - rhs`, or `None` where a product, the difference or the
    /// reduced result does not fit in `T`.
    pub fn checked_sub(&self, rhs: &Ratio<T>) -> (r: Option<Ratio<T>>)
        ensures
            r is Some <==> Self::can_sub(self@, rhs@),
            r matches Some(v) ==> v@ == self@.difference(rhs@).reduced(),
    {
        let ad = match self.numer().checked_times(rhs.denom()) {
            Some(v) => v,
            None => return None,
        };
        let bc = match self.denom().checked_times(rhs.numer()) {
            Some(v) => v,
            None => return None,
        };
        let bd = match self.denom().checked_times(rhs.denom()) {
            Some(v) => v,
            None => return None,
        };
        let diff = match ad.checked_minus(&bc) {
            Some(v) => v,
            None => return None,
        };
        Ratio::checked_new(diff, bd)
    }

    /// `self * rhs`, or `None` where a product or the reduced result does
    /// not fit in `T`.
    pub fn checked_mul(&self, rhs: &Ratio<T>) -> (r: Option<Ratio<T>>)
        ensures
            r is Some <==> Self::can_mul(self@, rhs@),
            r matches Some(v) ==> v@ == self@.product(rhs@).reduced(),
    {
        let ac = match self.numer().checked_times(rhs.numer()) {
            Some(v) => v,
            None => return None,
        };
        let bd = match self.denom().checked_times(rhs.denom()) {
            Some(v) => v,
            None => return None,
        };
        Ratio::checked_new(ac, bd)
    }

    /// `self / rhs`, or `None` where `rhs` is zero or a product or the
    /// reduced result does not fit in `T`.
    pub fn checked_div(&self, rhs: &Ratio<T>) -> (r: Option<Ratio<T>>)
        ensures
            r is Some <==> Self::can_div(self@, rhs@),
            r matches Some(v) ==> v@ == self@.quotient(rhs@).reduced(),
    {
        let bc = match self.denom().checked_times(rhs.numer()) {
            Some(v) => v,
            None => return None,
        };
        if bc.is_zero() {
            None
        } else {
            let ad = match self.numer().checked_times(rhs.denom()) {
                Some(v) => v,
                None => return None,
            };
            Ratio::checked_new(ad, bc)
        }
    }
}

impl<T: Backing> Add<Ratio<T>> for Ratio<T> {
    type Output = Ratio<T>;

    /// `a/b + c/d`, as `(a*d + b*c) / (b*d)` in lowest terms.
    fn add(self, rhs: Ratio<T>) -> (r: Ratio<T>)
        ensures
            r@ == self@.sum(rhs@).reduced(),
    {
        let ad = self.numer().times(rhs.denom());
        let bc = self.denom().times(rhs.numer());
        let bd = self.denom().times(rhs.denom());
        Ratio::new(ad.plus(&bc), bd)
    }
}

impl<T: Backing> AddSpecImpl<Ratio<T>> for Ratio<T> {
    open spec fn obeys_add_spec() -> bool {
        false
    }

    open spec fn add_req(self, rhs: Ratio<T>) -> bool {
        Ratio::<T>::can_add(self@, rhs@)
    }

    open spec fn add_spec(self, rhs: Ratio<T>) -> Ratio<T> {
        arbitrary()
    }
}

impl<T: Backing> Add<T> for Ratio<T> {
    type Output = Ratio<T>;

    /// `a/b + c`, as `(a + b*c) / b` in lowest terms.
    fn add(self, rhs: T) -> (r: Ratio<T>)
        ensures
            r@ == self@.sum(Fraction::integer(rhs.val())).reduced(),
    {
        proof {
            lemma_times_one(self@, rhs.val());
        }
        let bc = self.denom().times(&rhs);
        Ratio::new(self.numer().plus(&bc), self.denom().dup())
    }
}

impl<T: Backing> AddSpecImpl<T> for Ratio<T> {
    open spec fn obeys_add_spec() -> bool {
        false
    }

    open spec fn add_req(self, rhs: T) -> bool {
        Ratio::<T>::can_add(self@, Fraction::integer(rhs.val()))
    }

    open spec fn add_spec(self, rhs: T) -> Ratio<T> {
        arbitrary()
    }
}

impl<T: Backing> AddAssign<Ratio<T>> for Ratio<T> {
    fn add_assign(&mut self, rhs: Ratio<T>)
        requires
            Ratio::<T>::can_add(old(self)@, rhs@),
        ensures
            final(self)@ == old(self)@.sum(rhs@).reduced(),
    {
        let ad = self.numer().times(rhs.denom());
        let bc = self.denom().times(rhs.numer());
        let bd = self.denom().times(rhs.denom());
        *self = Ratio::new(ad.plus(&bc), bd);
    }
}

impl<T: Backing> AddAssign<T> for Ratio<T> {
    fn add_assign(&mut self, rhs: T)
        requires
            Ratio::<T>::can_add(old(self)@, Fraction::integer(rhs.val())),
        ensures
            final(self)@ == old(self)@.sum(Fraction::integer(rhs.val())).reduced(),
    {
        proof {
            lemma_times_one(self@, rhs.val());
        }
        let bc = self.denom().times(&rhs);
        *self = Ratio::new(self.numer().plus(&bc), self.denom().dup());
    }
}

impl<T: Backing> Sub<Ratio<T>> for Ratio<T> {
    type Output = Ratio<T>;

    /// `a/b - c/d`, as `(a*d - b*c) / (b*d)` in lowest terms.
    fn sub(self, rhs: Ratio<T>) -> (r: Ratio<T>)
        ensures
            r@ == self@.difference(rhs@).reduced(),
    {
        let ad = self.numer().times(rhs.denom());
        let bc = self.denom().times(rhs.numer());
        let bd = self.denom().times(rhs.denom());
        Ratio::new(ad.minus(&bc), bd)
    }
}

impl<T: Backing> SubSpecImpl<Ratio<T>> for Ratio<T> {
    open spec fn obeys_sub_spec() -> bool {
        false
    }

    open spec fn sub_req(self, rhs: Ratio<T>) -> bool {
        Ratio::<T>::can_sub(self@, rhs@)
    }

    open spec fn sub_spec(self, rhs: Ratio<T>) -> Ratio<T> {
        arbitrary()
    }
}

impl<T: Backing> Sub<T> for Ratio<T> {
    type Output = Ratio<T>;

    /// `a/b - c`, as `(a - b*c) / b` in lowest terms.
    fn sub(self, rhs: T) -> (r: Ratio<T>)
        ensures
            r@ == self@.difference(Fraction::integer(rhs.val())).reduced(),
    {
        proof {
            lemma_times_one(self@, rhs.val());
        }
        let bc = self.denom().times(&rhs);
        Ratio::new(self.numer().minus(&bc), self.denom().dup())
    }
}

impl<T: Backing> SubSpecImpl<T> for Ratio<T> {
    open spec fn obeys_sub_spec() -> bool {
        false
    }

    open spec fn sub_req(self, rhs: T) -> bool {
        Ratio::<T>::can_sub(self@, Fraction::integer(rhs.val()))
    }

    open spec fn sub_spec(self, rhs: T) -> Ratio<T> {
        arbitrary()
    }
}

impl<T: Backing> SubAssign<Ratio<T>> for Ratio<T> {
    fn sub_assign(&mut self, rhs: Ratio<T>)
        requires
            Ratio::<T>::can_sub(old(self)@, rhs@),
        ensures
            final(self)@ == old(self)@.difference(rhs@).reduced(),
    {
        let ad = self.numer().times(rhs.denom());
        let bc = self.denom().times(rhs.numer());
        let bd = self.denom().times(rhs.denom());
        *self = Ratio::new(ad.minus(&bc), bd);
    }
}

impl<T: Backing> SubAssign<T> for Ratio<T> {
    fn sub_assign(&mut self, rhs: T)
        requires
            Ratio::<T>::can_sub(old(self)@, Fraction::integer(rhs.val())),
        ensures
            final(self)@ == old(self)@.difference(Fraction::integer(rhs.val())).reduced(),
    {
        proof {
            lemma_times_one(self@, rhs.val());
        }
        let bc = self.denom().times(&rhs);
        *self = Ratio::new(self.numer().minus(&bc), self.denom().dup());
    }
}

impl<T: Backing> Mul<Ratio<T>> for Ratio<T> {
    type Output = Ratio<T>;

    /// `a/b * c/d`, as `(a*c) / (b*d)` in lowest terms.
    fn mul(self, rhs: Ratio<T>) -> (r: Ratio<T>)
        ensures
            r@ == self@.product(rhs@).reduced(),
    {
        let ac = self.numer().times(rhs.numer());
        let bd = self.denom().times(rhs.denom());
        Ratio::new(ac, bd)
    }
}

impl<T: Backing> MulSpecImpl<Ratio<T>> for Ratio<T> {
    open spec fn obeys_mul_spec() -> bool {
        false
    }

    open spec fn mul_req(self, rhs: Ratio<T>) -> bool {
        Ratio::<T>::can_mul(self@, rhs@)
    }

    open spec fn mul_spec(self, rhs: Ratio<T>) -> Ratio<T> {
        arbitrary()
    }
}

impl<T: Backing> Mul<T> for Ratio<T> {
    type Output = Ratio<T>;

    /// `a/b * c`, as `(a*c) / b` in lowest terms.
    fn mul(self, rhs: T) -> (r: Ratio<T>)
        ensures
            r@ == self@.product(Fraction::integer(rhs.val())).reduced(),
    {
        proof {
            lemma_times_one(self@, rhs.val());
        }
        let ac = self.numer().times(&rhs);
        Ratio::new(ac, self.denom().dup())
    }
}

impl<T: Backing> MulSpecImpl<T> for Ratio<T> {
    open spec fn obeys_mul_spec() -> bool {
        false
    }

    open spec fn mul_req(self, rhs: T) -> bool {
        Ratio::<T>::can_mul(self@, Fraction::integer(rhs.val()))
    }

    open spec fn mul_spec(self, rhs: T) -> Ratio<T> {
        arbitrary()
    }
}

impl<T: Backing> MulAssign<Ratio<T>> for Ratio<T> {
    fn mul_assign(&mut self, rhs: Ratio<T>)
        requires
            Ratio::<T>::can_mul(old(self)@, rhs@),
        ensures
            final(self)@ == old(self)@.product(rhs@).reduced(),
    {
        let ac = self.numer().times(rhs.numer());
        let bd = self.denom().times(rhs.denom());
        *self = Ratio::new(ac, bd);
    }
}

impl<T: Backing> MulAssign<T> for Ratio<T> {
    fn mul_assign(&mut self, rhs: T)
        requires
            Ratio::<T>::can_mul(old(self)@, Fraction::integer(rhs.val())),
        ensures
            final(self)@ == old(self)@.product(Fraction::integer(rhs.val())).reduced(),
    {
        proof {
            lemma_times_one(self@, rhs.val());
        }
        let ac = self.numer().times(&rhs);
        *self = Ratio::new(ac, self.denom().dup());
    }
}

impl<T: Backing> Div<Ratio<T>> for Ratio<T> {
    type Output = Ratio<T>;

    /// `(a/b) / (c/d)`, as `(a*d) / (b*c)` in lowest terms. The divisor is not zero.
    fn div(self, rhs: Ratio<T>) -> (r: Ratio<T>)
        ensures
            r@ == self@.quotient(rhs@).reduced(),
    {
        let ad = self.numer().times(rhs.denom());
        let bc = self.denom().times(rhs.numer());
        Ratio::new(ad, bc)
    }
}

impl<T: Backing> DivSpecImpl<Ratio<T>> for Ratio<T> {
    open spec fn obeys_div_spec() -> bool {
        false
    }

    open spec fn div_req(self, rhs: Ratio<T>) -> bool {
        Ratio::<T>::can_div(self@, rhs@)
    }

    open spec fn div_spec(self, rhs: Ratio<T>) -> Ratio<T> {
        arbitrary()
    }
}

impl<T: Backing> Div<T> for Ratio<T> {
    type Output = Ratio<T>;

    /// `(a/b) / c`, as `a / (b*c)` in lowest terms. The divisor is not zero.
    fn div(self, rhs: T) -> (r: Ratio<T>)
        ensures
            r@ == self@.quotient(Fraction::integer(rhs.val())).reduced(),
    {
        proof {
            lemma_times_one(self@, rhs.val());
        }
        let bc = self.denom().times(&rhs);
        Ratio::new(self.numer().dup(), bc)
    }
}

impl<T: Backing> DivSpecImpl<T> for Ratio<T> {
    open spec fn obeys_div_spec() -> bool {
        false
    }

    open spec fn div_req(self, rhs: T) -> bool {
        Ratio::<T>::can_div(self@, Fraction::integer(rhs.val()))
    }

    open spec fn div_spec(self, rhs: T) -> Ratio<T> {
        arbitrary()
    }
}

impl<T: Backing> DivAssign<Ratio<T>> for Ratio<T> {
    fn div_assign(&mut self, rhs: Ratio<T>)
        requires
            Ratio::<T>::can_div(old(self)@, rhs@),
        ensures
            final(self)@ == old(self)@.quotient(rhs@).reduced(),
    {
        let ad = self.numer().times(rhs.denom());
        let bc = self.denom().times(rhs.numer());
        *self = Ratio::new(ad, bc);
    }
}

impl<T: Backing> DivAssign<T> for Ratio<T> {
    fn div_assign(&mut self, rhs: T)
        requires
            Ratio::<T>::can_div(old(self)@, Fraction::integer(rhs.val())),
        ensures
            final(self)@ == old(self)@.quotient(Fraction::integer(rhs.val())).reduced(),
    {
        proof {
            lemma_times_one(self@, rhs.val());
        }
        let bc = self.denom().times(&rhs);
        *self = Ratio::new(self.numer().dup(), bc);
    }
}

impl<T: Backing> Rem<Ratio<T>> for Ratio<T> {
    type Output = Ratio<T>;

    /// `a/b % c/d`, as `(a*d % b*c) / (b*d)` in lowest terms. The divisor is not zero.
    fn rem(self, rhs: Ratio<T>) -> (r: Ratio<T>)
        ensures
            r@ == self@.remainder(rhs@).reduced(),
    {
        let ad = self.numer().times(rhs.denom());
        let bc = self.denom().times(rhs.numer());
        let bd = self.denom().times(rhs.denom());
        proof {
            lemma_mul_nonzero(self@.den, rhs@.num);
        }
        Ratio::new(ad.rem_trunc(&bc), bd)
    }
}

impl<T: Backing> RemSpecImpl<Ratio<T>> for Ratio<T> {
    open spec fn obeys_rem_spec() -> bool {
        false
    }

    open spec fn rem_req(self, rhs: Ratio<T>) -> bool {
        Ratio::<T>::can_rem(self@, rhs@)
    }

    open spec fn rem_spec(self, rhs: Ratio<T>) -> Ratio<T> {
        arbitrary()
    }
}

impl<T: Backing> Rem<T> for Ratio<T> {
    type Output = Ratio<T>;

    /// `a/b % c`, as `(a % b*c) / b` in lowest terms. The divisor is not zero.
    fn rem(self, rhs: T) -> (r: Ratio<T>)
        ensures
            r@ == self@.remainder(Fraction::integer(rhs.val())).reduced(),
    {
        proof {
            lemma_times_one(self@, rhs.val());
        }
        let bc = self.denom().times(&rhs);
        proof {
            lemma_mul_nonzero(self@.den, rhs.val());
        }
        Ratio::new(self.numer().rem_trunc(&bc), self.denom().dup())
    }
}

impl<T: Backing> RemSpecImpl<T> for Ratio<T> {
    open spec fn obeys_rem_spec() -> bool {
        false
    }

    open spec fn rem_req(self, rhs: T) -> bool {
        Ratio::<T>::can_rem(self@, Fraction::integer(rhs.val()))
    }

    open spec fn rem_spec(self, rhs: T) -> Ratio<T> {
        arbitrary()
    }
}

impl<T: Backing> RemAssign<Ratio<T>> for Ratio<T> {
    fn rem_assign(&mut self, rhs: Ratio<T>)
        requires
            Ratio::<T>::can_rem(old(self)@, rhs@),
        ensures
            final(self)@ == old(self)@.remainder(rhs@).reduced(),
    {
        let ad = self.numer().times(rhs.denom());
        let bc = self.denom().times(rhs.numer());
        let bd = self.denom().times(rhs.denom());
        proof {
            lemma_mul_nonzero(self@.den, rhs@.num);
        }
        *self = Ratio::new(ad.rem_trunc(&bc), bd);
    }
}

impl<T: Backing> RemAssign<T> for Ratio<T> {
    fn rem_assign(&mut self, rhs: T)
        requires
            Ratio::<T>::can_rem(old(self)@, Fraction::integer(rhs.val())),
        ensures
            final(self)@ == old(self)@.remainder(Fraction::integer(rhs.val())).reduced(),
    {
        proof {
            lemma_times_one(self@, rhs.val());
        }
        let bc = self.denom().times(&rhs);
        proof {
            lemma_mul_nonzero(self@.den, rhs.val());
        }
        *self = Ratio::new(self.numer().rem_trunc(&bc), self.denom().dup());
    }
}

impl<T: Backing> Neg for Ratio<T> {
    type Output = Ratio<T>;

    /// `-a/b`, as `(-a) / b`: the denominator is left as it is.
    fn neg(self) -> (r: Ratio<T>)
        ensures
            r@ == self@.negated(),
    {
        Ratio::new_raw(T::zero().minus(self.numer()), self.denom().dup())
    }
}

impl<T: Backing> NegSpecImpl for Ratio<T> {
    open spec fn obeys_neg_spec() -> bool {
        false
    }

    open spec fn neg_req(self) -> bool {
        T::fits(-self@.num)
    }

    open spec fn neg_spec(self) -> Ratio<T> {
        arbitrary()
    }
}

/// A product with the numerator or denominator 1 of an integer.
proof fn lemma_times_one(f: Fraction, v: int)
    ensures
        f.num * 1 == f.num,
        f.den * 1 == f.den,
        f.sum(Fraction::integer(v)).num == f.num + f.den * v,
{
}

} // verus!
