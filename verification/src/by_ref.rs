//! The operators of a ratio with one or both operands borrowed; each makes
//! its own copy and goes on as the operator on values does.

use vstd::prelude::*;
use std::ops::{
    Add, AddAssign, Div, DivAssign, Mul, MulAssign, Neg, Rem, RemAssign, Sub, SubAssign,
};
use vstd::std_specs::ops::{
    AddSpecImpl, DivSpecImpl, MulSpecImpl, NegSpecImpl, RemSpecImpl, SubSpecImpl,
};
use crate::backing::Backing;
use crate::fraction::Fraction;
use crate::ratio::Ratio;

verus! {

impl<'a, 'b, T: Backing> Add<&'b Ratio<T>> for &'a Ratio<T> {
    type Output = Ratio<T>;

    fn add(self, rhs: &'b Ratio<T>) -> (r: Ratio<T>)
        ensures
            r@ == self@.sum(rhs@).reduced(),
    {
        self.clone() + rhs.clone()
    }
}

impl<'a, 'b, T: Backing> AddSpecImpl<&'b Ratio<T>> for &'a Ratio<T> {
    open spec fn obeys_add_spec() -> bool {
        false
    }

    open spec fn add_req(self, rhs: &'b Ratio<T>) -> bool {
        Ratio::<T>::can_add(self@, rhs@)
    }

    open spec fn add_spec(self, rhs: &'b Ratio<T>) -> Ratio<T> {
        arbitrary()
    }
}

impl<'a, 'b, T: Backing> Add<&'b T> for &'a Ratio<T> {
    type Output = Ratio<T>;

    fn add(self, rhs: &'b T) -> (r: Ratio<T>)
        ensures
            r@ == self@.sum(Fraction::integer(rhs.val())).reduced(),
    {
        self.clone() + rhs.dup()
    }
}

impl<'a, 'b, T: Backing> AddSpecImpl<&'b T> for &'a Ratio<T> {
    open spec fn obeys_add_spec() -> bool {
        false
    }

    open spec fn add_req(self, rhs: &'b T) -> bool {
        Ratio::<T>::can_add(self@, Fraction::integer(rhs.val()))
    }

    open spec fn add_spec(self, rhs: &'b T) -> Ratio<T> {
        arbitrary()
    }
}

impl<'a, T: Backing> Add<Ratio<T>> for &'a Ratio<T> {
    type Output = Ratio<T>;

    fn add(self, rhs: Ratio<T>) -> (r: Ratio<T>)
        ensures
            r@ == self@.sum(rhs@).reduced(),
    {
        self.clone() + rhs
    }
}

impl<'a, T: Backing> AddSpecImpl<Ratio<T>> for &'a Ratio<T> {
    open spec fn obeys_add_spec() -> bool {
        false
    }

    open spec fn add_req(self, rhs: Ratio<T>) -> bool {
        Ratio::<T>::can_add(self@, rhs@)
    }

    open spec fn add_spec(self, rhs: Ratio<T>) -> Ratio<T> {
        arbitrary()
    }
}

impl<'a, T: Backing> Add<T> for &'a Ratio<T> {
    type Output = Ratio<T>;

    fn add(self, rhs: T) -> (r: Ratio<T>)
        ensures
            r@ == self@.sum(Fraction::integer(rhs.val())).reduced(),
    {
        self.clone() + rhs
    }
}

impl<'a, T: Backing> AddSpecImpl<T> for &'a Ratio<T> {
    open spec fn obeys_add_spec() -> bool {
        false
    }

    open spec fn add_req(self, rhs: T) -> bool {
        Ratio::<T>::can_add(self@, Fraction::integer(rhs.val()))
    }

    open spec fn add_spec(self, rhs: T) -> Ratio<T> {
        arbitrary()
    }
}

impl<'a, T: Backing> Add<&'a Ratio<T>> for Ratio<T> {
    type Output = Ratio<T>;

    fn add(self, rhs: &'a Ratio<T>) -> (r: Ratio<T>)
        ensures
            r@ == self@.sum(rhs@).reduced(),
    {
        self + rhs.clone()
    }
}

impl<'a, T: Backing> AddSpecImpl<&'a Ratio<T>> for Ratio<T> {
    open spec fn obeys_add_spec() -> bool {
        false
    }

    open spec fn add_req(self, rhs: &'a Ratio<T>) -> bool {
        Ratio::<T>::can_add(self@, rhs@)
    }

    open spec fn add_spec(self, rhs: &'a Ratio<T>) -> Ratio<T> {
        arbitrary()
    }
}

impl<'a, T: Backing> Add<&'a T> for Ratio<T> {
    type Output = Ratio<T>;

    fn add(self, rhs: &'a T) -> (r: Ratio<T>)
        ensures
            r@ == self@.sum(Fraction::integer(rhs.val())).reduced(),
    {
        self + rhs.dup()
    }
}

impl<'a, T: Backing> AddSpecImpl<&'a T> for Ratio<T> {
    open spec fn obeys_add_spec() -> bool {
        false
    }

    open spec fn add_req(self, rhs: &'a T) -> bool {
        Ratio::<T>::can_add(self@, Fraction::integer(rhs.val()))
    }

    open spec fn add_spec(self, rhs: &'a T) -> Ratio<T> {
        arbitrary()
    }
}

impl<'a, T: Backing> AddAssign<&'a Ratio<T>> for Ratio<T> {
    fn add_assign(&mut self, rhs: &'a Ratio<T>)
        requires
            Ratio::<T>::can_add(old(self)@, rhs@),
        ensures
            final(self)@ == old(self)@.sum(rhs@).reduced(),
    {
        *self = self.clone() + rhs.clone();
    }
}

impl<'a, T: Backing> AddAssign<&'a T> for Ratio<T> {
    fn add_assign(&mut self, rhs: &'a T)
        requires
            Ratio::<T>::can_add(old(self)@, Fraction::integer(rhs.val())),
        ensures
            final(self)@ == old(self)@.sum(Fraction::integer(rhs.val())).reduced(),
    {
        *self = self.clone() + rhs.dup();
    }
}

impl<'a, 'b, T: Backing> Sub<&'b Ratio<T>> for &'a Ratio<T> {
    type Output = Ratio<T>;

    fn sub(self, rhs: &'b Ratio<T>) -> (r: Ratio<T>)
        ensures
            r@ == self@.difference(rhs@).reduced(),
    {
        self.clone() - rhs.clone()
    }
}

impl<'a, 'b, T: Backing> SubSpecImpl<&'b Ratio<T>> for &'a Ratio<T> {
    open spec fn obeys_sub_spec() -> bool {
        false
    }

    open spec fn sub_req(self, rhs: &'b Ratio<T>) -> bool {
        Ratio::<T>::can_sub(self@, rhs@)
    }

    open spec fn sub_spec(self, rhs: &'b Ratio<T>) -> Ratio<T> {
        arbitrary()
    }
}

impl<'a, 'b, T: Backing> Sub<&'b T> for &'a Ratio<T> {
    type Output = Ratio<T>;

    fn sub(self, rhs: &'b T) -> (r: Ratio<T>)
        ensures
            r@ == self@.difference(Fraction::integer(rhs.val())).reduced(),
    {
        self.clone() - rhs.dup()
    }
}

impl<'a, 'b, T: Backing> SubSpecImpl<&'b T> for &'a Ratio<T> {
    open spec fn obeys_sub_spec() -> bool {
        false
    }

    open spec fn sub_req(self, rhs: &'b T) -> bool {
        Ratio::<T>::can_sub(self@, Fraction::integer(rhs.val()))
    }

    open spec fn sub_spec(self, rhs: &'b T) -> Ratio<T> {
        arbitrary()
    }
}

impl<'a, T: Backing> Sub<Ratio<T>> for &'a Ratio<T> {
    type Output = Ratio<T>;

    fn sub(self, rhs: Ratio<T>) -> (r: Ratio<T>)
        ensures
            r@ == self@.difference(rhs@).reduced(),
    {
        self.clone() - rhs
    }
}

impl<'a, T: Backing> SubSpecImpl<Ratio<T>> for &'a Ratio<T> {
    open spec fn obeys_sub_spec() -> bool {
        false
    }

    open spec fn sub_req(self, rhs: Ratio<T>) -> bool {
        Ratio::<T>::can_sub(self@, rhs@)
    }

    open spec fn sub_spec(self, rhs: Ratio<T>) -> Ratio<T> {
        arbitrary()
    }
}

impl<'a, T: Backing> Sub<T> for &'a Ratio<T> {
    type Output = Ratio<T>;

    fn sub(self, rhs: T) -> (r: Ratio<T>)
        ensures
            r@ == self@.difference(Fraction::integer(rhs.val())).reduced(),
    {
        self.clone() - rhs
    }
}

impl<'a, T: Backing> SubSpecImpl<T> for &'a Ratio<T> {
    open spec fn obeys_sub_spec() -> bool {
        false
    }

    open spec fn sub_req(self, rhs: T) -> bool {
        Ratio::<T>::can_sub(self@, Fraction::integer(rhs.val()))
    }

    open spec fn sub_spec(self, rhs: T) -> Ratio<T> {
        arbitrary()
    }
}

impl<'a, T: Backing> Sub<&'a Ratio<T>> for Ratio<T> {
    type Output = Ratio<T>;

    fn sub(self, rhs: &'a Ratio<T>) -> (r: Ratio<T>)
        ensures
            r@ == self@.difference(rhs@).reduced(),
    {
        self - rhs.clone()
    }
}

impl<'a, T: Backing> SubSpecImpl<&'a Ratio<T>> for Ratio<T> {
    open spec fn obeys_sub_spec() -> bool {
        false
    }

    open spec fn sub_req(self, rhs: &'a Ratio<T>) -> bool {
        Ratio::<T>::can_sub(self@, rhs@)
    }

    open spec fn sub_spec(self, rhs: &'a Ratio<T>) -> Ratio<T> {
        arbitrary()
    }
}

impl<'a, T: Backing> Sub<&'a T> for Ratio<T> {
    type Output = Ratio<T>;

    fn sub(self, rhs: &'a T) -> (r: Ratio<T>)
        ensures
            r@ == self@.difference(Fraction::integer(rhs.val())).reduced(),
    {
        self - rhs.dup()
    }
}

impl<'a, T: Backing> SubSpecImpl<&'a T> for Ratio<T> {
    open spec fn obeys_sub_spec() -> bool {
        false
    }

    open spec fn sub_req(self, rhs: &'a T) -> bool {
        Ratio::<T>::can_sub(self@, Fraction::integer(rhs.val()))
    }

    open spec fn sub_spec(self, rhs: &'a T) -> Ratio<T> {
        arbitrary()
    }
}

impl<'a, T: Backing> SubAssign<&'a Ratio<T>> for Ratio<T> {
    fn sub_assign(&mut self, rhs: &'a Ratio<T>)
        requires
            Ratio::<T>::can_sub(old(self)@, rhs@),
        ensures
            final(self)@ == old(self)@.difference(rhs@).reduced(),
    {
        *self = self.clone() - rhs.clone();
    }
}

impl<'a, T: Backing> SubAssign<&'a T> for Ratio<T> {
    fn sub_assign(&mut self, rhs: &'a T)
        requires
            Ratio::<T>::can_sub(old(self)@, Fraction::integer(rhs.val())),
        ensures
            final(self)@ == old(self)@.difference(Fraction::integer(rhs.val())).reduced(),
    {
        *self = self.clone() - rhs.dup();
    }
}

impl<'a, 'b, T: Backing> Mul<&'b Ratio<T>> for &'a Ratio<T> {
    type Output = Ratio<T>;

    fn mul(self, rhs: &'b Ratio<T>) -> (r: Ratio<T>)
        ensures
            r@ == self@.product(rhs@).reduced(),
    {
        self.clone() * rhs.clone()
    }
}

impl<'a, 'b, T: Backing> MulSpecImpl<&'b Ratio<T>> for &'a Ratio<T> {
    open spec fn obeys_mul_spec() -> bool {
        false
    }

    open spec fn mul_req(self, rhs: &'b Ratio<T>) -> bool {
        Ratio::<T>::can_mul(self@, rhs@)
    }

    open spec fn mul_spec(self, rhs: &'b Ratio<T>) -> Ratio<T> {
        arbitrary()
    }
}

impl<'a, 'b, T: Backing> Mul<&'b T> for &'a Ratio<T> {
    type Output = Ratio<T>;

    fn mul(self, rhs: &'b T) -> (r: Ratio<T>)
        ensures
            r@ == self@.product(Fraction::integer(rhs.val())).reduced(),
    {
        self.clone() * rhs.dup()
    }
}

impl<'a, 'b, T: Backing> MulSpecImpl<&'b T> for &'a Ratio<T> {
    open spec fn obeys_mul_spec() -> bool {
        false
    }

    open spec fn mul_req(self, rhs: &'b T) -> bool {
        Ratio::<T>::can_mul(self@, Fraction::integer(rhs.val()))
    }

    open spec fn mul_spec(self, rhs: &'b T) -> Ratio<T> {
        arbitrary()
    }
}

impl<'a, T: Backing> Mul<Ratio<T>> for &'a Ratio<T> {
    type Output = Ratio<T>;

    fn mul(self, rhs: Ratio<T>) -> (r: Ratio<T>)
        ensures
            r@ == self@.product(rhs@).reduced(),
    {
        self.clone() * rhs
    }
}

impl<'a, T: Backing> MulSpecImpl<Ratio<T>> for &'a Ratio<T> {
    open spec fn obeys_mul_spec() -> bool {
        false
    }

    open spec fn mul_req(self, rhs: Ratio<T>) -> bool {
        Ratio::<T>::can_mul(self@, rhs@)
    }

    open spec fn mul_spec(self, rhs: Ratio<T>) -> Ratio<T> {
        arbitrary()
    }
}

impl<'a, T: Backing> Mul<T> for &'a Ratio<T> {
    type Output = Ratio<T>;

    fn mul(self, rhs: T) -> (r: Ratio<T>)
        ensures
            r@ == self@.product(Fraction::integer(rhs.val())).reduced(),
    {
        self.clone() * rhs
    }
}

impl<'a, T: Backing> MulSpecImpl<T> for &'a Ratio<T> {
    open spec fn obeys_mul_spec() -> bool {
        false
    }

    open spec fn mul_req(self, rhs: T) -> bool {
        Ratio::<T>::can_mul(self@, Fraction::integer(rhs.val()))
    }

    open spec fn mul_spec(self, rhs: T) -> Ratio<T> {
        arbitrary()
    }
}

impl<'a, T: Backing> Mul<&'a Ratio<T>> for Ratio<T> {
    type Output = Ratio<T>;

    fn mul(self, rhs: &'a Ratio<T>) -> (r: Ratio<T>)
        ensures
            r@ == self@.product(rhs@).reduced(),
    {
        self * rhs.clone()
    }
}

impl<'a, T: Backing> MulSpecImpl<&'a Ratio<T>> for Ratio<T> {
    open spec fn obeys_mul_spec() -> bool {
        false
    }

    open spec fn mul_req(self, rhs: &'a Ratio<T>) -> bool {
        Ratio::<T>::can_mul(self@, rhs@)
    }

    open spec fn mul_spec(self, rhs: &'a Ratio<T>) -> Ratio<T> {
        arbitrary()
    }
}

impl<'a, T: Backing> Mul<&'a T> for Ratio<T> {
    type Output = Ratio<T>;

    fn mul(self, rhs: &'a T) -> (r: Ratio<T>)
        ensures
            r@ == self@.product(Fraction::integer(rhs.val())).reduced(),
    {
        self * rhs.dup()
    }
}

impl<'a, T: Backing> MulSpecImpl<&'a T> for Ratio<T> {
    open spec fn obeys_mul_spec() -> bool {
        false
    }

    open spec fn mul_req(self, rhs: &'a T) -> bool {
        Ratio::<T>::can_mul(self@, Fraction::integer(rhs.val()))
    }

    open spec fn mul_spec(self, rhs: &'a T) -> Ratio<T> {
        arbitrary()
    }
}

impl<'a, T: Backing> MulAssign<&'a Ratio<T>> for Ratio<T> {
    fn mul_assign(&mut self, rhs: &'a Ratio<T>)
        requires
            Ratio::<T>::can_mul(old(self)@, rhs@),
        ensures
            final(self)@ == old(self)@.product(rhs@).reduced(),
    {
        *self = self.clone() * rhs.clone();
    }
}

impl<'a, T: Backing> MulAssign<&'a T> for Ratio<T> {
    fn mul_assign(&mut self, rhs: &'a T)
        requires
            Ratio::<T>::can_mul(old(self)@, Fraction::integer(rhs.val())),
        ensures
            final(self)@ == old(self)@.product(Fraction::integer(rhs.val())).reduced(),
    {
        *self = self.clone() * rhs.dup();
    }
}

impl<'a, 'b, T: Backing> Div<&'b Ratio<T>> for &'a Ratio<T> {
    type Output = Ratio<T>;

    fn div(self, rhs: &'b Ratio<T>) -> (r: Ratio<T>)
        ensures
            r@ == self@.quotient(rhs@).reduced(),
    {
        self.clone() / rhs.clone()
    }
}

impl<'a, 'b, T: Backing> DivSpecImpl<&'b Ratio<T>> for &'a Ratio<T> {
    open spec fn obeys_div_spec() -> bool {
        false
    }

    open spec fn div_req(self, rhs: &'b Ratio<T>) -> bool {
        Ratio::<T>::can_div(self@, rhs@)
    }

    open spec fn div_spec(self, rhs: &'b Ratio<T>) -> Ratio<T> {
        arbitrary()
    }
}

impl<'a, 'b, T: Backing> Div<&'b T> for &'a Ratio<T> {
    type Output = Ratio<T>;

    fn div(self, rhs: &'b T) -> (r: Ratio<T>)
        ensures
            r@ == self@.quotient(Fraction::integer(rhs.val())).reduced(),
    {
        self.clone() / rhs.dup()
    }
}

impl<'a, 'b, T: Backing> DivSpecImpl<&'b T> for &'a Ratio<T> {
    open spec fn obeys_div_spec() -> bool {
        false
    }

    open spec fn div_req(self, rhs: &'b T) -> bool {
        Ratio::<T>::can_div(self@, Fraction::integer(rhs.val()))
    }

    open spec fn div_spec(self, rhs: &'b T) -> Ratio<T> {
        arbitrary()
    }
}

impl<'a, T: Backing> Div<Ratio<T>> for &'a Ratio<T> {
    type Output = Ratio<T>;

    fn div(self, rhs: Ratio<T>) -> (r: Ratio<T>)
        ensures
            r@ == self@.quotient(rhs@).reduced(),
    {
        self.clone() / rhs
    }
}

impl<'a, T: Backing> DivSpecImpl<Ratio<T>> for &'a Ratio<T> {
    open spec fn obeys_div_spec() -> bool {
        false
    }

    open spec fn div_req(self, rhs: Ratio<T>) -> bool {
        Ratio::<T>::can_div(self@, rhs@)
    }

    open spec fn div_spec(self, rhs: Ratio<T>) -> Ratio<T> {
        arbitrary()
    }
}

impl<'a, T: Backing> Div<T> for &'a Ratio<T> {
    type Output = Ratio<T>;

    fn div(self, rhs: T) -> (r: Ratio<T>)
        ensures
            r@ == self@.quotient(Fraction::integer(rhs.val())).reduced(),
    {
        self.clone() / rhs
    }
}

impl<'a, T: Backing> DivSpecImpl<T> for &'a Ratio<T> {
    open spec fn obeys_div_spec() -> bool {
        false
    }

    open spec fn div_req(self, rhs: T) -> bool {
        Ratio::<T>::can_div(self@, Fraction::integer(rhs.val()))
    }

    open spec fn div_spec(self, rhs: T) -> Ratio<T> {
        arbitrary()
    }
}

impl<'a, T: Backing> Div<&'a Ratio<T>> for Ratio<T> {
    type Output = Ratio<T>;

    fn div(self, rhs: &'a Ratio<T>) -> (r: Ratio<T>)
        ensures
            r@ == self@.quotient(rhs@).reduced(),
    {
        self / rhs.clone()
    }
}

impl<'a, T: Backing> DivSpecImpl<&'a Ratio<T>> for Ratio<T> {
    open spec fn obeys_div_spec() -> bool {
        false
    }

    open spec fn div_req(self, rhs: &'a Ratio<T>) -> bool {
        Ratio::<T>::can_div(self@, rhs@)
    }

    open spec fn div_spec(self, rhs: &'a Ratio<T>) -> Ratio<T> {
        arbitrary()
    }
}

impl<'a, T: Backing> Div<&'a T> for Ratio<T> {
    type Output = Ratio<T>;

    fn div(self, rhs: &'a T) -> (r: Ratio<T>)
        ensures
            r@ == self@.quotient(Fraction::integer(rhs.val())).reduced(),
    {
        self / rhs.dup()
    }
}

impl<'a, T: Backing> DivSpecImpl<&'a T> for Ratio<T> {
    open spec fn obeys_div_spec() -> bool {
        false
    }

    open spec fn div_req(self, rhs: &'a T) -> bool {
        Ratio::<T>::can_div(self@, Fraction::integer(rhs.val()))
    }

    open spec fn div_spec(self, rhs: &'a T) -> Ratio<T> {
        arbitrary()
    }
}

impl<'a, T: Backing> DivAssign<&'a Ratio<T>> for Ratio<T> {
    fn div_assign(&mut self, rhs: &'a Ratio<T>)
        requires
            Ratio::<T>::can_div(old(self)@, rhs@),
        ensures
            final(self)@ == old(self)@.quotient(rhs@).reduced(),
    {
        *self = self.clone() / rhs.clone();
    }
}

impl<'a, T: Backing> DivAssign<&'a T> for Ratio<T> {
    fn div_assign(&mut self, rhs: &'a T)
        requires
            Ratio::<T>::can_div(old(self)@, Fraction::integer(rhs.val())),
        ensures
            final(self)@ == old(self)@.quotient(Fraction::integer(rhs.val())).reduced(),
    {
        *self = self.clone() / rhs.dup();
    }
}

impl<'a, 'b, T: Backing> Rem<&'b Ratio<T>> for &'a Ratio<T> {
    type Output = Ratio<T>;

    fn rem(self, rhs: &'b Ratio<T>) -> (r: Ratio<T>)
        ensures
            r@ == self@.remainder(rhs@).reduced(),
    {
        self.clone() % rhs.clone()
    }
}

impl<'a, 'b, T: Backing> RemSpecImpl<&'b Ratio<T>> for &'a Ratio<T> {
    open spec fn obeys_rem_spec() -> bool {
        false
    }

    open spec fn rem_req(self, rhs: &'b Ratio<T>) -> bool {
        Ratio::<T>::can_rem(self@, rhs@)
    }

    open spec fn rem_spec(self, rhs: &'b Ratio<T>) -> Ratio<T> {
        arbitrary()
    }
}

impl<'a, 'b, T: Backing> Rem<&'b T> for &'a Ratio<T> {
    type Output = Ratio<T>;

    fn rem(self, rhs: &'b T) -> (r: Ratio<T>)
        ensures
            r@ == self@.remainder(Fraction::integer(rhs.val())).reduced(),
    {
        self.clone() % rhs.dup()
    }
}

impl<'a, 'b, T: Backing> RemSpecImpl<&'b T> for &'a Ratio<T> {
    open spec fn obeys_rem_spec() -> bool {
        false
    }

    open spec fn rem_req(self, rhs: &'b T) -> bool {
        Ratio::<T>::can_rem(self@, Fraction::integer(rhs.val()))
    }

    open spec fn rem_spec(self, rhs: &'b T) -> Ratio<T> {
        arbitrary()
    }
}

impl<'a, T: Backing> Rem<Ratio<T>> for &'a Ratio<T> {
    type Output = Ratio<T>;

    fn rem(self, rhs: Ratio<T>) -> (r: Ratio<T>)
        ensures
            r@ == self@.remainder(rhs@).reduced(),
    {
        self.clone() % rhs
    }
}

impl<'a, T: Backing> RemSpecImpl<Ratio<T>> for &'a Ratio<T> {
    open spec fn obeys_rem_spec() -> bool {
        false
    }

    open spec fn rem_req(self, rhs: Ratio<T>) -> bool {
        Ratio::<T>::can_rem(self@, rhs@)
    }

    open spec fn rem_spec(self, rhs: Ratio<T>) -> Ratio<T> {
        arbitrary()
    }
}

impl<'a, T: Backing> Rem<T> for &'a Ratio<T> {
    type Output = Ratio<T>;

    fn rem(self, rhs: T) -> (r: Ratio<T>)
        ensures
            r@ == self@.remainder(Fraction::integer(rhs.val())).reduced(),
    {
        self.clone() % rhs
    }
}

impl<'a, T: Backing> RemSpecImpl<T> for &'a Ratio<T> {
    open spec fn obeys_rem_spec() -> bool {
        false
    }

    open spec fn rem_req(self, rhs: T) -> bool {
        Ratio::<T>::can_rem(self@, Fraction::integer(rhs.val()))
    }

    open spec fn rem_spec(self, rhs: T) -> Ratio<T> {
        arbitrary()
    }
}

impl<'a, T: Backing> Rem<&'a Ratio<T>> for Ratio<T> {
    type Output = Ratio<T>;

    fn rem(self, rhs: &'a Ratio<T>) -> (r: Ratio<T>)
        ensures
            r@ == self@.remainder(rhs@).reduced(),
    {
        self % rhs.clone()
    }
}

impl<'a, T: Backing> RemSpecImpl<&'a Ratio<T>> for Ratio<T> {
    open spec fn obeys_rem_spec() -> bool {
        false
    }

    open spec fn rem_req(self, rhs: &'a Ratio<T>) -> bool {
        Ratio::<T>::can_rem(self@, rhs@)
    }

    open spec fn rem_spec(self, rhs: &'a Ratio<T>) -> Ratio<T> {
        arbitrary()
    }
}

impl<'a, T: Backing> Rem<&'a T> for Ratio<T> {
    type Output = Ratio<T>;

    fn rem(self, rhs: &'a T) -> (r: Ratio<T>)
        ensures
            r@ == self@.remainder(Fraction::integer(rhs.val())).reduced(),
    {
        self % rhs.dup()
    }
}

impl<'a, T: Backing> RemSpecImpl<&'a T> for Ratio<T> {
    open spec fn obeys_rem_spec() -> bool {
        false
    }

    open spec fn rem_req(self, rhs: &'a T) -> bool {
        Ratio::<T>::can_rem(self@, Fraction::integer(rhs.val()))
    }

    open spec fn rem_spec(self, rhs: &'a T) -> Ratio<T> {
        arbitrary()
    }
}

impl<'a, T: Backing> RemAssign<&'a Ratio<T>> for Ratio<T> {
    fn rem_assign(&mut self, rhs: &'a Ratio<T>)
        requires
            Ratio::<T>::can_rem(old(self)@, rhs@),
        ensures
            final(self)@ == old(self)@.remainder(rhs@).reduced(),
    {
        *self = self.clone() % rhs.clone();
    }
}

impl<'a, T: Backing> RemAssign<&'a T> for Ratio<T> {
    fn rem_assign(&mut self, rhs: &'a T)
        requires
            Ratio::<T>::can_rem(old(self)@, Fraction::integer(rhs.val())),
        ensures
            final(self)@ == old(self)@.remainder(Fraction::integer(rhs.val())).reduced(),
    {
        *self = self.clone() % rhs.dup();
    }
}

impl<'a, T: Backing> Neg for &'a Ratio<T> {
    type Output = Ratio<T>;

    fn neg(self) -> (r: Ratio<T>)
        ensures
            r@ == self@.negated(),
    {
        self.clone().neg()
    }
}

impl<'a, T: Backing> NegSpecImpl for &'a Ratio<T> {
    open spec fn obeys_neg_spec() -> bool {
        false
    }

    open spec fn neg_req(self) -> bool {
        T::fits(-self@.num)
    }

    open spec fn neg_spec(self) -> Ratio<T> {
        arbitrary()
    }
}

} // verus!
