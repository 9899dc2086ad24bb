//! Arithmetic with a machine integer on the left of a ratio: `c + a/b` and
//! the like, for every machine integer type.

use vstd::prelude::*;
use std::ops::{Add, Div, Mul, Sub};
use vstd::std_specs::ops::{AddSpecImpl, DivSpecImpl, MulSpecImpl, SubSpecImpl};
use crate::backing::Backing;
use crate::fraction::Fraction;
use crate::ratio::Ratio;

verus! {

/// The backing value for a signed machine integer that fits.
pub fn lift_signed<T: Backing>(n: i128) -> (r: T)
    requires
        T::fits(n as int),
    ensures
        r.val() == n,
{
    T::from_i128(n).unwrap()
}

/// The backing value for an unsigned machine integer that fits.
pub fn lift_unsigned<T: Backing>(n: u128) -> (r: T)
    requires
        T::fits(n as int),
    ensures
        r.val() == n,
{
    T::from_u128(n).unwrap()
}

impl<T: Backing> Add<Ratio<T>> for isize {
    type Output = Ratio<T>;

    /// `c + a/b`, the integer taken as `c/1`.
    fn add(self, rhs: Ratio<T>) -> (r: Ratio<T>)
        ensures
            r@ == Fraction::integer(self as int).sum(rhs@).reduced(),
    {
        Ratio::from_integer(lift_signed::<T>(self as i128)) + rhs
    }
}

impl<T: Backing> AddSpecImpl<Ratio<T>> for isize {
    open spec fn obeys_add_spec() -> bool {
        false
    }

    open spec fn add_req(self, rhs: Ratio<T>) -> bool {
        T::fits(self as int) && Ratio::<T>::can_add(Fraction::integer(self as int), rhs@)
    }

    open spec fn add_spec(self, rhs: Ratio<T>) -> Ratio<T> {
        arbitrary()
    }
}

impl<T: Backing> Sub<Ratio<T>> for isize {
    type Output = Ratio<T>;

    /// `c - a/b`, the integer taken as `c/1`.
    fn sub(self, rhs: Ratio<T>) -> (r: Ratio<T>)
        ensures
            r@ == Fraction::integer(self as int).difference(rhs@).reduced(),
    {
        Ratio::from_integer(lift_signed::<T>(self as i128)) - rhs
    }
}

impl<T: Backing> SubSpecImpl<Ratio<T>> for isize {
    open spec fn obeys_sub_spec() -> bool {
        false
    }

    open spec fn sub_req(self, rhs: Ratio<T>) -> bool {
        T::fits(self as int) && Ratio::<T>::can_sub(Fraction::integer(self as int), rhs@)
    }

    open spec fn sub_spec(self, rhs: Ratio<T>) -> Ratio<T> {
        arbitrary()
    }
}

impl<T: Backing> Mul<Ratio<T>> for isize {
    type Output = Ratio<T>;

    /// `c * a/b`, the integer taken as `c/1`.
    fn mul(self, rhs: Ratio<T>) -> (r: Ratio<T>)
        ensures
            r@ == Fraction::integer(self as int).product(rhs@).reduced(),
    {
        Ratio::from_integer(lift_signed::<T>(self as i128)) * rhs
    }
}

impl<T: Backing> MulSpecImpl<Ratio<T>> for isize {
    open spec fn obeys_mul_spec() -> bool {
        false
    }

    open spec fn mul_req(self, rhs: Ratio<T>) -> bool {
        T::fits(self as int) && Ratio::<T>::can_mul(Fraction::integer(self as int), rhs@)
    }

    open spec fn mul_spec(self, rhs: Ratio<T>) -> Ratio<T> {
        arbitrary()
    }
}

impl<T: Backing> Div<Ratio<T>> for isize {
    type Output = Ratio<T>;

    /// `c / (a/b)`, the integer taken as `c/1`.
    fn div(self, rhs: Ratio<T>) -> (r: Ratio<T>)
        ensures
            r@ == Fraction::integer(self as int).quotient(rhs@).reduced(),
    {
        Ratio::from_integer(lift_signed::<T>(self as i128)) / rhs
    }
}

impl<T: Backing> DivSpecImpl<Ratio<T>> for isize {
    open spec fn obeys_div_spec() -> bool {
        false
    }

    open spec fn div_req(self, rhs: Ratio<T>) -> bool {
        T::fits(self as int) && Ratio::<T>::can_div(Fraction::integer(self as int), rhs@)
    }

    open spec fn div_spec(self, rhs: Ratio<T>) -> Ratio<T> {
        arbitrary()
    }
}

impl<T: Backing> Add<Ratio<T>> for usize {
    type Output = Ratio<T>;

    /// `c + a/b`, the integer taken as `c/1`.
    fn add(self, rhs: Ratio<T>) -> (r: Ratio<T>)
        ensures
            r@ == Fraction::integer(self as int).sum(rhs@).reduced(),
    {
        Ratio::from_integer(lift_unsigned::<T>(self as u128)) + rhs
    }
}

impl<T: Backing> AddSpecImpl<Ratio<T>> for usize {
    open spec fn obeys_add_spec() -> bool {
        false
    }

    open spec fn add_req(self, rhs: Ratio<T>) -> bool {
        T::fits(self as int) && Ratio::<T>::can_add(Fraction::integer(self as int), rhs@)
    }

    open spec fn add_spec(self, rhs: Ratio<T>) -> Ratio<T> {
        arbitrary()
    }
}

impl<T: Backing> Sub<Ratio<T>> for usize {
    type Output = Ratio<T>;

    /// `c - a/b`, the integer taken as `c/1`.
    fn sub(self, rhs: Ratio<T>) -> (r: Ratio<T>)
        ensures
            r@ == Fraction::integer(self as int).difference(rhs@).reduced(),
    {
        Ratio::from_integer(lift_unsigned::<T>(self as u128)) - rhs
    }
}

impl<T: Backing> SubSpecImpl<Ratio<T>> for usize {
    open spec fn obeys_sub_spec() -> bool {
        false
    }

    open spec fn sub_req(self, rhs: Ratio<T>) -> bool {
        T::fits(self as int) && Ratio::<T>::can_sub(Fraction::integer(self as int), rhs@)
    }

    open spec fn sub_spec(self, rhs: Ratio<T>) -> Ratio<T> {
        arbitrary()
    }
}

impl<T: Backing> Mul<Ratio<T>> for usize {
    type Output = Ratio<T>;

    /// `c * a/b`, the integer taken as `c/1`.
    fn mul(self, rhs: Ratio<T>) -> (r: Ratio<T>)
        ensures
            r@ == Fraction::integer(self as int).product(rhs@).reduced(),
    {
        Ratio::from_integer(lift_unsigned::<T>(self as u128)) * rhs
    }
}

impl<T: Backing> MulSpecImpl<Ratio<T>> for usize {
    open spec fn obeys_mul_spec() -> bool {
        false
    }

    open spec fn mul_req(self, rhs: Ratio<T>) -> bool {
        T::fits(self as int) && Ratio::<T>::can_mul(Fraction::integer(self as int), rhs@)
    }

    open spec fn mul_spec(self, rhs: Ratio<T>) -> Ratio<T> {
        arbitrary()
    }
}

impl<T: Backing> Div<Ratio<T>> for usize {
    type Output = Ratio<T>;

    /// `c / (a/b)`, the integer taken as `c/1`.
    fn div(self, rhs: Ratio<T>) -> (r: Ratio<T>)
        ensures
            r@ == Fraction::integer(self as int).quotient(rhs@).reduced(),
    {
        Ratio::from_integer(lift_unsigned::<T>(self as u128)) / rhs
    }
}

impl<T: Backing> DivSpecImpl<Ratio<T>> for usize {
    open spec fn obeys_div_spec() -> bool {
        false
    }

    open spec fn div_req(self, rhs: Ratio<T>) -> bool {
        T::fits(self as int) && Ratio::<T>::can_div(Fraction::integer(self as int), rhs@)
    }

    open spec fn div_spec(self, rhs: Ratio<T>) -> Ratio<T> {
        arbitrary()
    }
}

impl<T: Backing> Add<Ratio<T>> for i8 {
    type Output = Ratio<T>;

    /// `c + a/b`, the integer taken as `c/1`.
    fn add(self, rhs: Ratio<T>) -> (r: Ratio<T>)
        ensures
            r@ == Fraction::integer(self as int).sum(rhs@).reduced(),
    {
        Ratio::from_integer(lift_signed::<T>(self as i128)) + rhs
    }
}

impl<T: Backing> AddSpecImpl<Ratio<T>> for i8 {
    open spec fn obeys_add_spec() -> bool {
        false
    }

    open spec fn add_req(self, rhs: Ratio<T>) -> bool {
        T::fits(self as int) && Ratio::<T>::can_add(Fraction::integer(self as int), rhs@)
    }

    open spec fn add_spec(self, rhs: Ratio<T>) -> Ratio<T> {
        arbitrary()
    }
}

impl<T: Backing> Sub<Ratio<T>> for i8 {
    type Output = Ratio<T>;

    /// `c - a/b`, the integer taken as `c/1`.
    fn sub(self, rhs: Ratio<T>) -> (r: Ratio<T>)
        ensures
            r@ == Fraction::integer(self as int).difference(rhs@).reduced(),
    {
        Ratio::from_integer(lift_signed::<T>(self as i128)) - rhs
    }
}

impl<T: Backing> SubSpecImpl<Ratio<T>> for i8 {
    open spec fn obeys_sub_spec() -> bool {
        false
    }

    open spec fn sub_req(self, rhs: Ratio<T>) -> bool {
        T::fits(self as int) && Ratio::<T>::can_sub(Fraction::integer(self as int), rhs@)
    }

    open spec fn sub_spec(self, rhs: Ratio<T>) -> Ratio<T> {
        arbitrary()
    }
}

impl<T: Backing> Mul<Ratio<T>> for i8 {
    type Output = Ratio<T>;

    /// `c * a/b`, the integer taken as `c/1`.
    fn mul(self, rhs: Ratio<T>) -> (r: Ratio<T>)
        ensures
            r@ == Fraction::integer(self as int).product(rhs@).reduced(),
    {
        Ratio::from_integer(lift_signed::<T>(self as i128)) * rhs
    }
}

impl<T: Backing> MulSpecImpl<Ratio<T>> for i8 {
    open spec fn obeys_mul_spec() -> bool {
        false
    }

    open spec fn mul_req(self, rhs: Ratio<T>) -> bool {
        T::fits(self as int) && Ratio::<T>::can_mul(Fraction::integer(self as int), rhs@)
    }

    open spec fn mul_spec(self, rhs: Ratio<T>) -> Ratio<T> {
        arbitrary()
    }
}

impl<T: Backing> Div<Ratio<T>> for i8 {
    type Output = Ratio<T>;

    /// `c / (a/b)`, the integer taken as `c/1`.
    fn div(self, rhs: Ratio<T>) -> (r: Ratio<T>)
        ensures
            r@ == Fraction::integer(self as int).quotient(rhs@).reduced(),
    {
        Ratio::from_integer(lift_signed::<T>(self as i128)) / rhs
    }
}

impl<T: Backing> DivSpecImpl<Ratio<T>> for i8 {
    open spec fn obeys_div_spec() -> bool {
        false
    }

    open spec fn div_req(self, rhs: Ratio<T>) -> bool {
        T::fits(self as int) && Ratio::<T>::can_div(Fraction::integer(self as int), rhs@)
    }

    open spec fn div_spec(self, rhs: Ratio<T>) -> Ratio<T> {
        arbitrary()
    }
}

impl<T: Backing> Add<Ratio<T>> for u8 {
    type Output = Ratio<T>;

    /// `c + a/b`, the integer taken as `c/1`.
    fn add(self, rhs: Ratio<T>) -> (r: Ratio<T>)
        ensures
            r@ == Fraction::integer(self as int).sum(rhs@).reduced(),
    {
        Ratio::from_integer(lift_unsigned::<T>(self as u128)) + rhs
    }
}

impl<T: Backing> AddSpecImpl<Ratio<T>> for u8 {
    open spec fn obeys_add_spec() -> bool {
        false
    }

    open spec fn add_req(self, rhs: Ratio<T>) -> bool {
        T::fits(self as int) && Ratio::<T>::can_add(Fraction::integer(self as int), rhs@)
    }

    open spec fn add_spec(self, rhs: Ratio<T>) -> Ratio<T> {
        arbitrary()
    }
}

impl<T: Backing> Sub<Ratio<T>> for u8 {
    type Output = Ratio<T>;

    /// `c - a/b`, the integer taken as `c/1`.
    fn sub(self, rhs: Ratio<T>) -> (r: Ratio<T>)
        ensures
            r@ == Fraction::integer(self as int).difference(rhs@).reduced(),
    {
        Ratio::from_integer(lift_unsigned::<T>(self as u128)) - rhs
    }
}

impl<T: Backing> SubSpecImpl<Ratio<T>> for u8 {
    open spec fn obeys_sub_spec() -> bool {
        false
    }

    open spec fn sub_req(self, rhs: Ratio<T>) -> bool {
        T::fits(self as int) && Ratio::<T>::can_sub(Fraction::integer(self as int), rhs@)
    }

    open spec fn sub_spec(self, rhs: Ratio<T>) -> Ratio<T> {
        arbitrary()
    }
}

impl<T: Backing> Mul<Ratio<T>> for u8 {
    type Output = Ratio<T>;

    /// `c * a/b`, the integer taken as `c/1`.
    fn mul(self, rhs: Ratio<T>) -> (r: Ratio<T>)
        ensures
            r@ == Fraction::integer(self as int).product(rhs@).reduced(),
    {
        Ratio::from_integer(lift_unsigned::<T>(self as u128)) * rhs
    }
}

impl<T: Backing> MulSpecImpl<Ratio<T>> for u8 {
    open spec fn obeys_mul_spec() -> bool {
        false
    }

    open spec fn mul_req(self, rhs: Ratio<T>) -> bool {
        T::fits(self as int) && Ratio::<T>::can_mul(Fraction::integer(self as int), rhs@)
    }

    open spec fn mul_spec(self, rhs: Ratio<T>) -> Ratio<T> {
        arbitrary()
    }
}

impl<T: Backing> Div<Ratio<T>> for u8 {
    type Output = Ratio<T>;

    /// `c / (a/b)`, the integer taken as `c/1`.
    fn div(self, rhs: Ratio<T>) -> (r: Ratio<T>)
        ensures
            r@ == Fraction::integer(self as int).quotient(rhs@).reduced(),
    {
        Ratio::from_integer(lift_unsigned::<T>(self as u128)) / rhs
    }
}

impl<T: Backing> DivSpecImpl<Ratio<T>> for u8 {
    open spec fn obeys_div_spec() -> bool {
        false
    }

    open spec fn div_req(self, rhs: Ratio<T>) -> bool {
        T::fits(self as int) && Ratio::<T>::can_div(Fraction::integer(self as int), rhs@)
    }

    open spec fn div_spec(self, rhs: Ratio<T>) -> Ratio<T> {
        arbitrary()
    }
}

impl<T: Backing> Add<Ratio<T>> for i16 {
    type Output = Ratio<T>;

    /// `c + a/b`, the integer taken as `c/1`.
    fn add(self, rhs: Ratio<T>) -> (r: Ratio<T>)
        ensures
            r@ == Fraction::integer(self as int).sum(rhs@).reduced(),
    {
        Ratio::from_integer(lift_signed::<T>(self as i128)) + rhs
    }
}

impl<T: Backing> AddSpecImpl<Ratio<T>> for i16 {
    open spec fn obeys_add_spec() -> bool {
        false
    }

    open spec fn add_req(self, rhs: Ratio<T>) -> bool {
        T::fits(self as int) && Ratio::<T>::can_add(Fraction::integer(self as int), rhs@)
    }

    open spec fn add_spec(self, rhs: Ratio<T>) -> Ratio<T> {
        arbitrary()
    }
}

impl<T: Backing> Sub<Ratio<T>> for i16 {
    type Output = Ratio<T>;

    /// `c - a/b`, the integer taken as `c/1`.
    fn sub(self, rhs: Ratio<T>) -> (r: Ratio<T>)
        ensures
            r@ == Fraction::integer(self as int).difference(rhs@).reduced(),
    {
        Ratio::from_integer(lift_signed::<T>(self as i128)) - rhs
    }
}

impl<T: Backing> SubSpecImpl<Ratio<T>> for i16 {
    open spec fn obeys_sub_spec() -> bool {
        false
    }

    open spec fn sub_req(self, rhs: Ratio<T>) -> bool {
        T::fits(self as int) && Ratio::<T>::can_sub(Fraction::integer(self as int), rhs@)
    }

    open spec fn sub_spec(self, rhs: Ratio<T>) -> Ratio<T> {
        arbitrary()
    }
}

impl<T: Backing> Mul<Ratio<T>> for i16 {
    type Output = Ratio<T>;

    /// `c * a/b`, the integer taken as `c/1`.
    fn mul(self, rhs: Ratio<T>) -> (r: Ratio<T>)
        ensures
            r@ == Fraction::integer(self as int).product(rhs@).reduced(),
    {
        Ratio::from_integer(lift_signed::<T>(self as i128)) * rhs
    }
}

impl<T: Backing> MulSpecImpl<Ratio<T>> for i16 {
    open spec fn obeys_mul_spec() -> bool {
        false
    }

    open spec fn mul_req(self, rhs: Ratio<T>) -> bool {
        T::fits(self as int) && Ratio::<T>::can_mul(Fraction::integer(self as int), rhs@)
    }

    open spec fn mul_spec(self, rhs: Ratio<T>) -> Ratio<T> {
        arbitrary()
    }
}

impl<T: Backing> Div<Ratio<T>> for i16 {
    type Output = Ratio<T>;

    /// `c / (a/b)`, the integer taken as `c/1`.
    fn div(self, rhs: Ratio<T>) -> (r: Ratio<T>)
        ensures
            r@ == Fraction::integer(self as int).quotient(rhs@).reduced(),
    {
        Ratio::from_integer(lift_signed::<T>(self as i128)) / rhs
    }
}

impl<T: Backing> DivSpecImpl<Ratio<T>> for i16 {
    open spec fn obeys_div_spec() -> bool {
        false
    }

    open spec fn div_req(self, rhs: Ratio<T>) -> bool {
        T::fits(self as int) && Ratio::<T>::can_div(Fraction::integer(self as int), rhs@)
    }

    open spec fn div_spec(self, rhs: Ratio<T>) -> Ratio<T> {
        arbitrary()
    }
}

impl<T: Backing> Add<Ratio<T>> for u16 {
    type Output = Ratio<T>;

    /// `c + a/b`, the integer taken as `c/1`.
    fn add(self, rhs: Ratio<T>) -> (r: Ratio<T>)
        ensures
            r@ == Fraction::integer(self as int).sum(rhs@).reduced(),
    {
        Ratio::from_integer(lift_unsigned::<T>(self as u128)) + rhs
    }
}

impl<T: Backing> AddSpecImpl<Ratio<T>> for u16 {
    open spec fn obeys_add_spec() -> bool {
        false
    }

    open spec fn add_req(self, rhs: Ratio<T>) -> bool {
        T::fits(self as int) && Ratio::<T>::can_add(Fraction::integer(self as int), rhs@)
    }

    open spec fn add_spec(self, rhs: Ratio<T>) -> Ratio<T> {
        arbitrary()
    }
}

impl<T: Backing> Sub<Ratio<T>> for u16 {
    type Output = Ratio<T>;

    /// `c - a/b`, the integer taken as `c/1`.
    fn sub(self, rhs: Ratio<T>) -> (r: Ratio<T>)
        ensures
            r@ == Fraction::integer(self as int).difference(rhs@).reduced(),
    {
        Ratio::from_integer(lift_unsigned::<T>(self as u128)) - rhs
    }
}

impl<T: Backing> SubSpecImpl<Ratio<T>> for u16 {
    open spec fn obeys_sub_spec() -> bool {
        false
    }

    open spec fn sub_req(self, rhs: Ratio<T>) -> bool {
        T::fits(self as int) && Ratio::<T>::can_sub(Fraction::integer(self as int), rhs@)
    }

    open spec fn sub_spec(self, rhs: Ratio<T>) -> Ratio<T> {
        arbitrary()
    }
}

impl<T: Backing> Mul<Ratio<T>> for u16 {
    type Output = Ratio<T>;

    /// `c * a/b`, the integer taken as `c/1`.
    fn mul(self, rhs: Ratio<T>) -> (r: Ratio<T>)
        ensures
            r@ == Fraction::integer(self as int).product(rhs@).reduced(),
    {
        Ratio::from_integer(lift_unsigned::<T>(self as u128)) * rhs
    }
}

impl<T: Backing> MulSpecImpl<Ratio<T>> for u16 {
    open spec fn obeys_mul_spec() -> bool {
        false
    }

    open spec fn mul_req(self, rhs: Ratio<T>) -> bool {
        T::fits(self as int) && Ratio::<T>::can_mul(Fraction::integer(self as int), rhs@)
    }

    open spec fn mul_spec(self, rhs: Ratio<T>) -> Ratio<T> {
        arbitrary()
    }
}

impl<T: Backing> Div<Ratio<T>> for u16 {
    type Output = Ratio<T>;

    /// `c / (a/b)`, the integer taken as `c/1`.
    fn div(self, rhs: Ratio<T>) -> (r: Ratio<T>)
        ensures
            r@ == Fraction::integer(self as int).quotient(rhs@).reduced(),
    {
        Ratio::from_integer(lift_unsigned::<T>(self as u128)) / rhs
    }
}

impl<T: Backing> DivSpecImpl<Ratio<T>> for u16 {
    open spec fn obeys_div_spec() -> bool {
        false
    }

    open spec fn div_req(self, rhs: Ratio<T>) -> bool {
        T::fits(self as int) && Ratio::<T>::can_div(Fraction::integer(self as int), rhs@)
    }

    open spec fn div_spec(self, rhs: Ratio<T>) -> Ratio<T> {
        arbitrary()
    }
}

impl<T: Backing> Add<Ratio<T>> for i32 {
    type Output = Ratio<T>;

    /// `c + a/b`, the integer taken as `c/1`.
    fn add(self, rhs: Ratio<T>) -> (r: Ratio<T>)
        ensures
            r@ == Fraction::integer(self as int).sum(rhs@).reduced(),
    {
        Ratio::from_integer(lift_signed::<T>(self as i128)) + rhs
    }
}

impl<T: Backing> AddSpecImpl<Ratio<T>> for i32 {
    open spec fn obeys_add_spec() -> bool {
        false
    }

    open spec fn add_req(self, rhs: Ratio<T>) -> bool {
        T::fits(self as int) && Ratio::<T>::can_add(Fraction::integer(self as int), rhs@)
    }

    open spec fn add_spec(self, rhs: Ratio<T>) -> Ratio<T> {
        arbitrary()
    }
}

impl<T: Backing> Sub<Ratio<T>> for i32 {
    type Output = Ratio<T>;

    /// `c - a/b`, the integer taken as `c/1`.
    fn sub(self, rhs: Ratio<T>) -> (r: Ratio<T>)
        ensures
            r@ == Fraction::integer(self as int).difference(rhs@).reduced(),
    {
        Ratio::from_integer(lift_signed::<T>(self as i128)) - rhs
    }
}

impl<T: Backing> SubSpecImpl<Ratio<T>> for i32 {
    open spec fn obeys_sub_spec() -> bool {
        false
    }

    open spec fn sub_req(self, rhs: Ratio<T>) -> bool {
        T::fits(self as int) && Ratio::<T>::can_sub(Fraction::integer(self as int), rhs@)
    }

    open spec fn sub_spec(self, rhs: Ratio<T>) -> Ratio<T> {
        arbitrary()
    }
}

impl<T: Backing> Mul<Ratio<T>> for i32 {
    type Output = Ratio<T>;

    /// `c * a/b`, the integer taken as `c/1`.
    fn mul(self, rhs: Ratio<T>) -> (r: Ratio<T>)
        ensures
            r@ == Fraction::integer(self as int).product(rhs@).reduced(),
    {
        Ratio::from_integer(lift_signed::<T>(self as i128)) * rhs
    }
}

impl<T: Backing> MulSpecImpl<Ratio<T>> for i32 {
    open spec fn obeys_mul_spec() -> bool {
        false
    }

    open spec fn mul_req(self, rhs: Ratio<T>) -> bool {
        T::fits(self as int) && Ratio::<T>::can_mul(Fraction::integer(self as int), rhs@)
    }

    open spec fn mul_spec(self, rhs: Ratio<T>) -> Ratio<T> {
        arbitrary()
    }
}

impl<T: Backing> Div<Ratio<T>> for i32 {
    type Output = Ratio<T>;

    /// `c / (a/b)`, the integer taken as `c/1`.
    fn div(self, rhs: Ratio<T>) -> (r: Ratio<T>)
        ensures
            r@ == Fraction::integer(self as int).quotient(rhs@).reduced(),
    {
        Ratio::from_integer(lift_signed::<T>(self as i128)) / rhs
    }
}

impl<T: Backing> DivSpecImpl<Ratio<T>> for i32 {
    open spec fn obeys_div_spec() -> bool {
        false
    }

    open spec fn div_req(self, rhs: Ratio<T>) -> bool {
        T::fits(self as int) && Ratio::<T>::can_div(Fraction::integer(self as int), rhs@)
    }

    open spec fn div_spec(self, rhs: Ratio<T>) -> Ratio<T> {
        arbitrary()
    }
}

impl<T: Backing> Add<Ratio<T>> for u32 {
    type Output = Ratio<T>;

    /// `c + a/b`, the integer taken as `c/1`.
    fn add(self, rhs: Ratio<T>) -> (r: Ratio<T>)
        ensures
            r@ == Fraction::integer(self as int).sum(rhs@).reduced(),
    {
        Ratio::from_integer(lift_unsigned::<T>(self as u128)) + rhs
    }
}

impl<T: Backing> AddSpecImpl<Ratio<T>> for u32 {
    open spec fn obeys_add_spec() -> bool {
        false
    }

    open spec fn add_req(self, rhs: Ratio<T>) -> bool {
        T::fits(self as int) && Ratio::<T>::can_add(Fraction::integer(self as int), rhs@)
    }

    open spec fn add_spec(self, rhs: Ratio<T>) -> Ratio<T> {
        arbitrary()
    }
}

impl<T: Backing> Sub<Ratio<T>> for u32 {
    type Output = Ratio<T>;

    /// `c - a/b`, the integer taken as `c/1`.
    fn sub(self, rhs: Ratio<T>) -> (r: Ratio<T>)
        ensures
            r@ == Fraction::integer(self as int).difference(rhs@).reduced(),
    {
        Ratio::from_integer(lift_unsigned::<T>(self as u128)) - rhs
    }
}

impl<T: Backing> SubSpecImpl<Ratio<T>> for u32 {
    open spec fn obeys_sub_spec() -> bool {
        false
    }

    open spec fn sub_req(self, rhs: Ratio<T>) -> bool {
        T::fits(self as int) && Ratio::<T>::can_sub(Fraction::integer(self as int), rhs@)
    }

    open spec fn sub_spec(self, rhs: Ratio<T>) -> Ratio<T> {
        arbitrary()
    }
}

impl<T: Backing> Mul<Ratio<T>> for u32 {
    type Output = Ratio<T>;

    /// `c * a/b`, the integer taken as `c/1`.
    fn mul(self, rhs: Ratio<T>) -> (r: Ratio<T>)
        ensures
            r@ == Fraction::integer(self as int).product(rhs@).reduced(),
    {
        Ratio::from_integer(lift_unsigned::<T>(self as u128)) * rhs
    }
}

impl<T: Backing> MulSpecImpl<Ratio<T>> for u32 {
    open spec fn obeys_mul_spec() -> bool {
        false
    }

    open spec fn mul_req(self, rhs: Ratio<T>) -> bool {
        T::fits(self as int) && Ratio::<T>::can_mul(Fraction::integer(self as int), rhs@)
    }

    open spec fn mul_spec(self, rhs: Ratio<T>) -> Ratio<T> {
        arbitrary()
    }
}

impl<T: Backing> Div<Ratio<T>> for u32 {
    type Output = Ratio<T>;

    /// `c / (a/b)`, the integer taken as `c/1`.
    fn div(self, rhs: Ratio<T>) -> (r: Ratio<T>)
        ensures
            r@ == Fraction::integer(self as int).quotient(rhs@).reduced(),
    {
        Ratio::from_integer(lift_unsigned::<T>(self as u128)) / rhs
    }
}

impl<T: Backing> DivSpecImpl<Ratio<T>> for u32 {
    open spec fn obeys_div_spec() -> bool {
        false
    }

    open spec fn div_req(self, rhs: Ratio<T>) -> bool {
        T::fits(self as int) && Ratio::<T>::can_div(Fraction::integer(self as int), rhs@)
    }

    open spec fn div_spec(self, rhs: Ratio<T>) -> Ratio<T> {
        arbitrary()
    }
}

impl<T: Backing> Add<Ratio<T>> for i64 {
    type Output = Ratio<T>;

    /// `c + a/b`, the integer taken as `c/1`.
    fn add(self, rhs: Ratio<T>) -> (r: Ratio<T>)
        ensures
            r@ == Fraction::integer(self as int).sum(rhs@).reduced(),
    {
        Ratio::from_integer(lift_signed::<T>(self as i128)) + rhs
    }
}

impl<T: Backing> AddSpecImpl<Ratio<T>> for i64 {
    open spec fn obeys_add_spec() -> bool {
        false
    }

    open spec fn add_req(self, rhs: Ratio<T>) -> bool {
        T::fits(self as int) && Ratio::<T>::can_add(Fraction::integer(self as int), rhs@)
    }

    open spec fn add_spec(self, rhs: Ratio<T>) -> Ratio<T> {
        arbitrary()
    }
}

impl<T: Backing> Sub<Ratio<T>> for i64 {
    type Output = Ratio<T>;

    /// `c - a/b`, the integer taken as `c/1`.
    fn sub(self, rhs: Ratio<T>) -> (r: Ratio<T>)
        ensures
            r@ == Fraction::integer(self as int).difference(rhs@).reduced(),
    {
        Ratio::from_integer(lift_signed::<T>(self as i128)) - rhs
    }
}

impl<T: Backing> SubSpecImpl<Ratio<T>> for i64 {
    open spec fn obeys_sub_spec() -> bool {
        false
    }

    open spec fn sub_req(self, rhs: Ratio<T>) -> bool {
        T::fits(self as int) && Ratio::<T>::can_sub(Fraction::integer(self as int), rhs@)
    }

    open spec fn sub_spec(self, rhs: Ratio<T>) -> Ratio<T> {
        arbitrary()
    }
}

impl<T: Backing> Mul<Ratio<T>> for i64 {
    type Output = Ratio<T>;

    /// `c * a/b`, the integer taken as `c/1`.
    fn mul(self, rhs: Ratio<T>) -> (r: Ratio<T>)
        ensures
            r@ == Fraction::integer(self as int).product(rhs@).reduced(),
    {
        Ratio::from_integer(lift_signed::<T>(self as i128)) * rhs
    }
}

impl<T: Backing> MulSpecImpl<Ratio<T>> for i64 {
    open spec fn obeys_mul_spec() -> bool {
        false
    }

    open spec fn mul_req(self, rhs: Ratio<T>) -> bool {
        T::fits(self as int) && Ratio::<T>::can_mul(Fraction::integer(self as int), rhs@)
    }

    open spec fn mul_spec(self, rhs: Ratio<T>) -> Ratio<T> {
        arbitrary()
    }
}

impl<T: Backing> Div<Ratio<T>> for i64 {
    type Output = Ratio<T>;

    /// `c / (a/b)`, the integer taken as `c/1`.
    fn div(self, rhs: Ratio<T>) -> (r: Ratio<T>)
        ensures
            r@ == Fraction::integer(self as int).quotient(rhs@).reduced(),
    {
        Ratio::from_integer(lift_signed::<T>(self as i128)) / rhs
    }
}

impl<T: Backing> DivSpecImpl<Ratio<T>> for i64 {
    open spec fn obeys_div_spec() -> bool {
        false
    }

    open spec fn div_req(self, rhs: Ratio<T>) -> bool {
        T::fits(self as int) && Ratio::<T>::can_div(Fraction::integer(self as int), rhs@)
    }

    open spec fn div_spec(self, rhs: Ratio<T>) -> Ratio<T> {
        arbitrary()
    }
}

impl<T: Backing> Add<Ratio<T>> for u64 {
    type Output = Ratio<T>;

    /// `c + a/b`, the integer taken as `c/1`.
    fn add(self, rhs: Ratio<T>) -> (r: Ratio<T>)
        ensures
            r@ == Fraction::integer(self as int).sum(rhs@).reduced(),
    {
        Ratio::from_integer(lift_unsigned::<T>(self as u128)) + rhs
    }
}

impl<T: Backing> AddSpecImpl<Ratio<T>> for u64 {
    open spec fn obeys_add_spec() -> bool {
        false
    }

    open spec fn add_req(self, rhs: Ratio<T>) -> bool {
        T::fits(self as int) && Ratio::<T>::can_add(Fraction::integer(self as int), rhs@)
    }

    open spec fn add_spec(self, rhs: Ratio<T>) -> Ratio<T> {
        arbitrary()
    }
}

impl<T: Backing> Sub<Ratio<T>> for u64 {
    type Output = Ratio<T>;

    /// `c - a/b`, the integer taken as `c/1`.
    fn sub(self, rhs: Ratio<T>) -> (r: Ratio<T>)
        ensures
            r@ == Fraction::integer(self as int).difference(rhs@).reduced(),
    {
        Ratio::from_integer(lift_unsigned::<T>(self as u128)) - rhs
    }
}

impl<T: Backing> SubSpecImpl<Ratio<T>> for u64 {
    open spec fn obeys_sub_spec() -> bool {
        false
    }

    open spec fn sub_req(self, rhs: Ratio<T>) -> bool {
        T::fits(self as int) && Ratio::<T>::can_sub(Fraction::integer(self as int), rhs@)
    }

    open spec fn sub_spec(self, rhs: Ratio<T>) -> Ratio<T> {
        arbitrary()
    }
}

impl<T: Backing> Mul<Ratio<T>> for u64 {
    type Output = Ratio<T>;

    /// `c * a/b`, the integer taken as `c/1`.
    fn mul(self, rhs: Ratio<T>) -> (r: Ratio<T>)
        ensures
            r@ == Fraction::integer(self as int).product(rhs@).reduced(),
    {
        Ratio::from_integer(lift_unsigned::<T>(self as u128)) * rhs
    }
}

impl<T: Backing> MulSpecImpl<Ratio<T>> for u64 {
    open spec fn obeys_mul_spec() -> bool {
        false
    }

    open spec fn mul_req(self, rhs: Ratio<T>) -> bool {
        T::fits(self as int) && Ratio::<T>::can_mul(Fraction::integer(self as int), rhs@)
    }

    open spec fn mul_spec(self, rhs: Ratio<T>) -> Ratio<T> {
        arbitrary()
    }
}

impl<T: Backing> Div<Ratio<T>> for u64 {
    type Output = Ratio<T>;

    /// `c / (a/b)`, the integer taken as `c/1`.
    fn div(self, rhs: Ratio<T>) -> (r: Ratio<T>)
        ensures
            r@ == Fraction::integer(self as int).quotient(rhs@).reduced(),
    {
        Ratio::from_integer(lift_unsigned::<T>(self as u128)) / rhs
    }
}

impl<T: Backing> DivSpecImpl<Ratio<T>> for u64 {
    open spec fn obeys_div_spec() -> bool {
        false
    }

    open spec fn div_req(self, rhs: Ratio<T>) -> bool {
        T::fits(self as int) && Ratio::<T>::can_div(Fraction::integer(self as int), rhs@)
    }

    open spec fn div_spec(self, rhs: Ratio<T>) -> Ratio<T> {
        arbitrary()
    }
}

impl<T: Backing> Add<Ratio<T>> for i128 {
    type Output = Ratio<T>;

    /// `c + a/b`, the integer taken as `c/1`.
    fn add(self, rhs: Ratio<T>) -> (r: Ratio<T>)
        ensures
            r@ == Fraction::integer(self as int).sum(rhs@).reduced(),
    {
        Ratio::from_integer(lift_signed::<T>(self as i128)) + rhs
    }
}

impl<T: Backing> AddSpecImpl<Ratio<T>> for i128 {
    open spec fn obeys_add_spec() -> bool {
        false
    }

    open spec fn add_req(self, rhs: Ratio<T>) -> bool {
        T::fits(self as int) && Ratio::<T>::can_add(Fraction::integer(self as int), rhs@)
    }

    open spec fn add_spec(self, rhs: Ratio<T>) -> Ratio<T> {
        arbitrary()
    }
}

impl<T: Backing> Sub<Ratio<T>> for i128 {
    type Output = Ratio<T>;

    /// `c - a/b`, the integer taken as `c/1`.
    fn sub(self, rhs: Ratio<T>) -> (r: Ratio<T>)
        ensures
            r@ == Fraction::integer(self as int).difference(rhs@).reduced(),
    {
        Ratio::from_integer(lift_signed::<T>(self as i128)) - rhs
    }
}

impl<T: Backing> SubSpecImpl<Ratio<T>> for i128 {
    open spec fn obeys_sub_spec() -> bool {
        false
    }

    open spec fn sub_req(self, rhs: Ratio<T>) -> bool {
        T::fits(self as int) && Ratio::<T>::can_sub(Fraction::integer(self as int), rhs@)
    }

    open spec fn sub_spec(self, rhs: Ratio<T>) -> Ratio<T> {
        arbitrary()
    }
}

impl<T: Backing> Mul<Ratio<T>> for i128 {
    type Output = Ratio<T>;

    /// `c * a/b`, the integer taken as `c/1`.
    fn mul(self, rhs: Ratio<T>) -> (r: Ratio<T>)
        ensures
            r@ == Fraction::integer(self as int).product(rhs@).reduced(),
    {
        Ratio::from_integer(lift_signed::<T>(self as i128)) * rhs
    }
}

impl<T: Backing> MulSpecImpl<Ratio<T>> for i128 {
    open spec fn obeys_mul_spec() -> bool {
        false
    }

    open spec fn mul_req(self, rhs: Ratio<T>) -> bool {
        T::fits(self as int) && Ratio::<T>::can_mul(Fraction::integer(self as int), rhs@)
    }

    open spec fn mul_spec(self, rhs: Ratio<T>) -> Ratio<T> {
        arbitrary()
    }
}

impl<T: Backing> Div<Ratio<T>> for i128 {
    type Output = Ratio<T>;

    /// `c / (a/b)`, the integer taken as `c/1`.
    fn div(self, rhs: Ratio<T>) -> (r: Ratio<T>)
        ensures
            r@ == Fraction::integer(self as int).quotient(rhs@).reduced(),
    {
        Ratio::from_integer(lift_signed::<T>(self as i128)) / rhs
    }
}

impl<T: Backing> DivSpecImpl<Ratio<T>> for i128 {
    open spec fn obeys_div_spec() -> bool {
        false
    }

    open spec fn div_req(self, rhs: Ratio<T>) -> bool {
        T::fits(self as int) && Ratio::<T>::can_div(Fraction::integer(self as int), rhs@)
    }

    open spec fn div_spec(self, rhs: Ratio<T>) -> Ratio<T> {
        arbitrary()
    }
}

impl<T: Backing> Add<Ratio<T>> for u128 {
    type Output = Ratio<T>;

    /// `c + a/b`, the integer taken as `c/1`.
    fn add(self, rhs: Ratio<T>) -> (r: Ratio<T>)
        ensures
            r@ == Fraction::integer(self as int).sum(rhs@).reduced(),
    {
        Ratio::from_integer(lift_unsigned::<T>(self as u128)) + rhs
    }
}

impl<T: Backing> AddSpecImpl<Ratio<T>> for u128 {
    open spec fn obeys_add_spec() -> bool {
        false
    }

    open spec fn add_req(self, rhs: Ratio<T>) -> bool {
        T::fits(self as int) && Ratio::<T>::can_add(Fraction::integer(self as int), rhs@)
    }

    open spec fn add_spec(self, rhs: Ratio<T>) -> Ratio<T> {
        arbitrary()
    }
}

impl<T: Backing> Sub<Ratio<T>> for u128 {
    type Output = Ratio<T>;

    /// `c - a/b`, the integer taken as `c/1`.
    fn sub(self, rhs: Ratio<T>) -> (r: Ratio<T>)
        ensures
            r@ == Fraction::integer(self as int).difference(rhs@).reduced(),
    {
        Ratio::from_integer(lift_unsigned::<T>(self as u128)) - rhs
    }
}

impl<T: Backing> SubSpecImpl<Ratio<T>> for u128 {
    open spec fn obeys_sub_spec() -> bool {
        false
    }

    open spec fn sub_req(self, rhs: Ratio<T>) -> bool {
        T::fits(self as int) && Ratio::<T>::can_sub(Fraction::integer(self as int), rhs@)
    }

    open spec fn sub_spec(self, rhs: Ratio<T>) -> Ratio<T> {
        arbitrary()
    }
}

impl<T: Backing> Mul<Ratio<T>> for u128 {
    type Output = Ratio<T>;

    /// `c * a/b`, the integer taken as `c/1`.
    fn mul(self, rhs: Ratio<T>) -> (r: Ratio<T>)
        ensures
            r@ == Fraction::integer(self as int).product(rhs@).reduced(),
    {
        Ratio::from_integer(lift_unsigned::<T>(self as u128)) * rhs
    }
}

impl<T: Backing> MulSpecImpl<Ratio<T>> for u128 {
    open spec fn obeys_mul_spec() -> bool {
        false
    }

    open spec fn mul_req(self, rhs: Ratio<T>) -> bool {
        T::fits(self as int) && Ratio::<T>::can_mul(Fraction::integer(self as int), rhs@)
    }

    open spec fn mul_spec(self, rhs: Ratio<T>) -> Ratio<T> {
        arbitrary()
    }
}

impl<T: Backing> Div<Ratio<T>> for u128 {
    type Output = Ratio<T>;

    /// `c / (a/b)`, the integer taken as `c/1`.
    fn div(self, rhs: Ratio<T>) -> (r: Ratio<T>)
        ensures
            r@ == Fraction::integer(self as int).quotient(rhs@).reduced(),
    {
        Ratio::from_integer(lift_unsigned::<T>(self as u128)) / rhs
    }
}

impl<T: Backing> DivSpecImpl<Ratio<T>> for u128 {
    open spec fn obeys_div_spec() -> bool {
        false
    }

    open spec fn div_req(self, rhs: Ratio<T>) -> bool {
        T::fits(self as int) && Ratio::<T>::can_div(Fraction::integer(self as int), rhs@)
    }

    open spec fn div_spec(self, rhs: Ratio<T>) -> Ratio<T> {
        arbitrary()
    }
}

} // verus!
