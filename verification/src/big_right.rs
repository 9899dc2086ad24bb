//! Arithmetic of a ratio of `BigInt` with a machine integer on the right:
//! `a/b + c` and the like, for every machine integer type.

use vstd::prelude::*;
use std::ops::{Add, Div, Mul, Sub};
use vstd::std_specs::ops::{AddSpecImpl, DivSpecImpl, MulSpecImpl, SubSpecImpl};
use num_bigint::BigInt;
use crate::integer_left::{lift_signed, lift_unsigned};
use crate::fraction::Fraction;
use crate::ratio::Ratio;

verus! {

impl Add<isize> for Ratio<BigInt> {
    type Output = Ratio<BigInt>;

    /// `a/b + c`, the integer taken as `c/1`.
    fn add(self, rhs: isize) -> (r: Ratio<BigInt>)
        ensures
            r@ == self@.sum(Fraction::integer(rhs as int)).reduced(),
    {
        self + Ratio::from_integer(lift_signed::<BigInt>(rhs as i128))
    }
}

impl AddSpecImpl<isize> for Ratio<BigInt> {
    open spec fn obeys_add_spec() -> bool {
        false
    }

    open spec fn add_req(self, rhs: isize) -> bool {
        Ratio::<BigInt>::can_add(self@, Fraction::integer(rhs as int))
    }

    open spec fn add_spec(self, rhs: isize) -> Ratio<BigInt> {
        arbitrary()
    }
}

impl Sub<isize> for Ratio<BigInt> {
    type Output = Ratio<BigInt>;

    /// `a/b - c`, the integer taken as `c/1`.
    fn sub(self, rhs: isize) -> (r: Ratio<BigInt>)
        ensures
            r@ == self@.difference(Fraction::integer(rhs as int)).reduced(),
    {
        self - Ratio::from_integer(lift_signed::<BigInt>(rhs as i128))
    }
}

impl SubSpecImpl<isize> for Ratio<BigInt> {
    open spec fn obeys_sub_spec() -> bool {
        false
    }

    open spec fn sub_req(self, rhs: isize) -> bool {
        Ratio::<BigInt>::can_sub(self@, Fraction::integer(rhs as int))
    }

    open spec fn sub_spec(self, rhs: isize) -> Ratio<BigInt> {
        arbitrary()
    }
}

impl Mul<isize> for Ratio<BigInt> {
    type Output = Ratio<BigInt>;

    /// `a/b * c`, the integer taken as `c/1`.
    fn mul(self, rhs: isize) -> (r: Ratio<BigInt>)
        ensures
            r@ == self@.product(Fraction::integer(rhs as int)).reduced(),
    {
        self * Ratio::from_integer(lift_signed::<BigInt>(rhs as i128))
    }
}

impl MulSpecImpl<isize> for Ratio<BigInt> {
    open spec fn obeys_mul_spec() -> bool {
        false
    }

    open spec fn mul_req(self, rhs: isize) -> bool {
        Ratio::<BigInt>::can_mul(self@, Fraction::integer(rhs as int))
    }

    open spec fn mul_spec(self, rhs: isize) -> Ratio<BigInt> {
        arbitrary()
    }
}

impl Div<isize> for Ratio<BigInt> {
    type Output = Ratio<BigInt>;

    /// `(a/b) / c`, the integer taken as `c/1`.
    fn div(self, rhs: isize) -> (r: Ratio<BigInt>)
        ensures
            r@ == self@.quotient(Fraction::integer(rhs as int)).reduced(),
    {
        self / Ratio::from_integer(lift_signed::<BigInt>(rhs as i128))
    }
}

impl DivSpecImpl<isize> for Ratio<BigInt> {
    open spec fn obeys_div_spec() -> bool {
        false
    }

    open spec fn div_req(self, rhs: isize) -> bool {
        Ratio::<BigInt>::can_div(self@, Fraction::integer(rhs as int))
    }

    open spec fn div_spec(self, rhs: isize) -> Ratio<BigInt> {
        arbitrary()
    }
}

impl Add<usize> for Ratio<BigInt> {
    type Output = Ratio<BigInt>;

    /// `a/b + c`, the integer taken as `c/1`.
    fn add(self, rhs: usize) -> (r: Ratio<BigInt>)
        ensures
            r@ == self@.sum(Fraction::integer(rhs as int)).reduced(),
    {
        self + Ratio::from_integer(lift_unsigned::<BigInt>(rhs as u128))
    }
}

impl AddSpecImpl<usize> for Ratio<BigInt> {
    open spec fn obeys_add_spec() -> bool {
        false
    }

    open spec fn add_req(self, rhs: usize) -> bool {
        Ratio::<BigInt>::can_add(self@, Fraction::integer(rhs as int))
    }

    open spec fn add_spec(self, rhs: usize) -> Ratio<BigInt> {
        arbitrary()
    }
}

impl Sub<usize> for Ratio<BigInt> {
    type Output = Ratio<BigInt>;

    /// `a/b - c`, the integer taken as `c/1`.
    fn sub(self, rhs: usize) -> (r: Ratio<BigInt>)
        ensures
            r@ == self@.difference(Fraction::integer(rhs as int)).reduced(),
    {
        self - Ratio::from_integer(lift_unsigned::<BigInt>(rhs as u128))
    }
}

impl SubSpecImpl<usize> for Ratio<BigInt> {
    open spec fn obeys_sub_spec() -> bool {
        false
    }

    open spec fn sub_req(self, rhs: usize) -> bool {
        Ratio::<BigInt>::can_sub(self@, Fraction::integer(rhs as int))
    }

    open spec fn sub_spec(self, rhs: usize) -> Ratio<BigInt> {
        arbitrary()
    }
}

impl Mul<usize> for Ratio<BigInt> {
    type Output = Ratio<BigInt>;

    /// `a/b * c`, the integer taken as `c/1`.
    fn mul(self, rhs: usize) -> (r: Ratio<BigInt>)
        ensures
            r@ == self@.product(Fraction::integer(rhs as int)).reduced(),
    {
        self * Ratio::from_integer(lift_unsigned::<BigInt>(rhs as u128))
    }
}

impl MulSpecImpl<usize> for Ratio<BigInt> {
    open spec fn obeys_mul_spec() -> bool {
        false
    }

    open spec fn mul_req(self, rhs: usize) -> bool {
        Ratio::<BigInt>::can_mul(self@, Fraction::integer(rhs as int))
    }

    open spec fn mul_spec(self, rhs: usize) -> Ratio<BigInt> {
        arbitrary()
    }
}

impl Div<usize> for Ratio<BigInt> {
    type Output = Ratio<BigInt>;

    /// `(a/b) / c`, the integer taken as `c/1`.
    fn div(self, rhs: usize) -> (r: Ratio<BigInt>)
        ensures
            r@ == self@.quotient(Fraction::integer(rhs as int)).reduced(),
    {
        self / Ratio::from_integer(lift_unsigned::<BigInt>(rhs as u128))
    }
}

impl DivSpecImpl<usize> for Ratio<BigInt> {
    open spec fn obeys_div_spec() -> bool {
        false
    }

    open spec fn div_req(self, rhs: usize) -> bool {
        Ratio::<BigInt>::can_div(self@, Fraction::integer(rhs as int))
    }

    open spec fn div_spec(self, rhs: usize) -> Ratio<BigInt> {
        arbitrary()
    }
}

impl Add<i8> for Ratio<BigInt> {
    type Output = Ratio<BigInt>;

    /// `a/b + c`, the integer taken as `c/1`.
    fn add(self, rhs: i8) -> (r: Ratio<BigInt>)
        ensures
            r@ == self@.sum(Fraction::integer(rhs as int)).reduced(),
    {
        self + Ratio::from_integer(lift_signed::<BigInt>(rhs as i128))
    }
}

impl AddSpecImpl<i8> for Ratio<BigInt> {
    open spec fn obeys_add_spec() -> bool {
        false
    }

    open spec fn add_req(self, rhs: i8) -> bool {
        Ratio::<BigInt>::can_add(self@, Fraction::integer(rhs as int))
    }

    open spec fn add_spec(self, rhs: i8) -> Ratio<BigInt> {
        arbitrary()
    }
}

impl Sub<i8> for Ratio<BigInt> {
    type Output = Ratio<BigInt>;

    /// `a/b - c`, the integer taken as `c/1`.
    fn sub(self, rhs: i8) -> (r: Ratio<BigInt>)
        ensures
            r@ == self@.difference(Fraction::integer(rhs as int)).reduced(),
    {
        self - Ratio::from_integer(lift_signed::<BigInt>(rhs as i128))
    }
}

impl SubSpecImpl<i8> for Ratio<BigInt> {
    open spec fn obeys_sub_spec() -> bool {
        false
    }

    open spec fn sub_req(self, rhs: i8) -> bool {
        Ratio::<BigInt>::can_sub(self@, Fraction::integer(rhs as int))
    }

    open spec fn sub_spec(self, rhs: i8) -> Ratio<BigInt> {
        arbitrary()
    }
}

impl Mul<i8> for Ratio<BigInt> {
    type Output = Ratio<BigInt>;

    /// `a/b * c`, the integer taken as `c/1`.
    fn mul(self, rhs: i8) -> (r: Ratio<BigInt>)
        ensures
            r@ == self@.product(Fraction::integer(rhs as int)).reduced(),
    {
        self * Ratio::from_integer(lift_signed::<BigInt>(rhs as i128))
    }
}

impl MulSpecImpl<i8> for Ratio<BigInt> {
    open spec fn obeys_mul_spec() -> bool {
        false
    }

    open spec fn mul_req(self, rhs: i8) -> bool {
        Ratio::<BigInt>::can_mul(self@, Fraction::integer(rhs as int))
    }

    open spec fn mul_spec(self, rhs: i8) -> Ratio<BigInt> {
        arbitrary()
    }
}

impl Div<i8> for Ratio<BigInt> {
    type Output = Ratio<BigInt>;

    /// `(a/b) / c`, the integer taken as `c/1`.
    fn div(self, rhs: i8) -> (r: Ratio<BigInt>)
        ensures
            r@ == self@.quotient(Fraction::integer(rhs as int)).reduced(),
    {
        self / Ratio::from_integer(lift_signed::<BigInt>(rhs as i128))
    }
}

impl DivSpecImpl<i8> for Ratio<BigInt> {
    open spec fn obeys_div_spec() -> bool {
        false
    }

    open spec fn div_req(self, rhs: i8) -> bool {
        Ratio::<BigInt>::can_div(self@, Fraction::integer(rhs as int))
    }

    open spec fn div_spec(self, rhs: i8) -> Ratio<BigInt> {
        arbitrary()
    }
}

impl Add<u8> for Ratio<BigInt> {
    type Output = Ratio<BigInt>;

    /// `a/b + c`, the integer taken as `c/1`.
    fn add(self, rhs: u8) -> (r: Ratio<BigInt>)
        ensures
            r@ == self@.sum(Fraction::integer(rhs as int)).reduced(),
    {
        self + Ratio::from_integer(lift_unsigned::<BigInt>(rhs as u128))
    }
}

impl AddSpecImpl<u8> for Ratio<BigInt> {
    open spec fn obeys_add_spec() -> bool {
        false
    }

    open spec fn add_req(self, rhs: u8) -> bool {
        Ratio::<BigInt>::can_add(self@, Fraction::integer(rhs as int))
    }

    open spec fn add_spec(self, rhs: u8) -> Ratio<BigInt> {
        arbitrary()
    }
}

impl Sub<u8> for Ratio<BigInt> {
    type Output = Ratio<BigInt>;

    /// `a/b - c`, the integer taken as `c/1`.
    fn sub(self, rhs: u8) -> (r: Ratio<BigInt>)
        ensures
            r@ == self@.difference(Fraction::integer(rhs as int)).reduced(),
    {
        self - Ratio::from_integer(lift_unsigned::<BigInt>(rhs as u128))
    }
}

impl SubSpecImpl<u8> for Ratio<BigInt> {
    open spec fn obeys_sub_spec() -> bool {
        false
    }

    open spec fn sub_req(self, rhs: u8) -> bool {
        Ratio::<BigInt>::can_sub(self@, Fraction::integer(rhs as int))
    }

    open spec fn sub_spec(self, rhs: u8) -> Ratio<BigInt> {
        arbitrary()
    }
}

impl Mul<u8> for Ratio<BigInt> {
    type Output = Ratio<BigInt>;

    /// `a/b * c`, the integer taken as `c/1`.
    fn mul(self, rhs: u8) -> (r: Ratio<BigInt>)
        ensures
            r@ == self@.product(Fraction::integer(rhs as int)).reduced(),
    {
        self * Ratio::from_integer(lift_unsigned::<BigInt>(rhs as u128))
    }
}

impl MulSpecImpl<u8> for Ratio<BigInt> {
    open spec fn obeys_mul_spec() -> bool {
        false
    }

    open spec fn mul_req(self, rhs: u8) -> bool {
        Ratio::<BigInt>::can_mul(self@, Fraction::integer(rhs as int))
    }

    open spec fn mul_spec(self, rhs: u8) -> Ratio<BigInt> {
        arbitrary()
    }
}

impl Div<u8> for Ratio<BigInt> {
    type Output = Ratio<BigInt>;

    /// `(a/b) / c`, the integer taken as `c/1`.
    fn div(self, rhs: u8) -> (r: Ratio<BigInt>)
        ensures
            r@ == self@.quotient(Fraction::integer(rhs as int)).reduced(),
    {
        self / Ratio::from_integer(lift_unsigned::<BigInt>(rhs as u128))
    }
}

impl DivSpecImpl<u8> for Ratio<BigInt> {
    open spec fn obeys_div_spec() -> bool {
        false
    }

    open spec fn div_req(self, rhs: u8) -> bool {
        Ratio::<BigInt>::can_div(self@, Fraction::integer(rhs as int))
    }

    open spec fn div_spec(self, rhs: u8) -> Ratio<BigInt> {
        arbitrary()
    }
}

impl Add<i16> for Ratio<BigInt> {
    type Output = Ratio<BigInt>;

    /// `a/b + c`, the integer taken as `c/1`.
    fn add(self, rhs: i16) -> (r: Ratio<BigInt>)
        ensures
            r@ == self@.sum(Fraction::integer(rhs as int)).reduced(),
    {
        self + Ratio::from_integer(lift_signed::<BigInt>(rhs as i128))
    }
}

impl AddSpecImpl<i16> for Ratio<BigInt> {
    open spec fn obeys_add_spec() -> bool {
        false
    }

    open spec fn add_req(self, rhs: i16) -> bool {
        Ratio::<BigInt>::can_add(self@, Fraction::integer(rhs as int))
    }

    open spec fn add_spec(self, rhs: i16) -> Ratio<BigInt> {
        arbitrary()
    }
}

impl Sub<i16> for Ratio<BigInt> {
    type Output = Ratio<BigInt>;

    /// `a/b - c`, the integer taken as `c/1`.
    fn sub(self, rhs: i16) -> (r: Ratio<BigInt>)
        ensures
            r@ == self@.difference(Fraction::integer(rhs as int)).reduced(),
    {
        self - Ratio::from_integer(lift_signed::<BigInt>(rhs as i128))
    }
}

impl SubSpecImpl<i16> for Ratio<BigInt> {
    open spec fn obeys_sub_spec() -> bool {
        false
    }

    open spec fn sub_req(self, rhs: i16) -> bool {
        Ratio::<BigInt>::can_sub(self@, Fraction::integer(rhs as int))
    }

    open spec fn sub_spec(self, rhs: i16) -> Ratio<BigInt> {
        arbitrary()
    }
}

impl Mul<i16> for Ratio<BigInt> {
    type Output = Ratio<BigInt>;

    /// `a/b * c`, the integer taken as `c/1`.
    fn mul(self, rhs: i16) -> (r: Ratio<BigInt>)
        ensures
            r@ == self@.product(Fraction::integer(rhs as int)).reduced(),
    {
        self * Ratio::from_integer(lift_signed::<BigInt>(rhs as i128))
    }
}

impl MulSpecImpl<i16> for Ratio<BigInt> {
    open spec fn obeys_mul_spec() -> bool {
        false
    }

    open spec fn mul_req(self, rhs: i16) -> bool {
        Ratio::<BigInt>::can_mul(self@, Fraction::integer(rhs as int))
    }

    open spec fn mul_spec(self, rhs: i16) -> Ratio<BigInt> {
        arbitrary()
    }
}

impl Div<i16> for Ratio<BigInt> {
    type Output = Ratio<BigInt>;

    /// `(a/b) / c`, the integer taken as `c/1`.
    fn div(self, rhs: i16) -> (r: Ratio<BigInt>)
        ensures
            r@ == self@.quotient(Fraction::integer(rhs as int)).reduced(),
    {
        self / Ratio::from_integer(lift_signed::<BigInt>(rhs as i128))
    }
}

impl DivSpecImpl<i16> for Ratio<BigInt> {
    open spec fn obeys_div_spec() -> bool {
        false
    }

    open spec fn div_req(self, rhs: i16) -> bool {
        Ratio::<BigInt>::can_div(self@, Fraction::integer(rhs as int))
    }

    open spec fn div_spec(self, rhs: i16) -> Ratio<BigInt> {
        arbitrary()
    }
}

impl Add<u16> for Ratio<BigInt> {
    type Output = Ratio<BigInt>;

    /// `a/b + c`, the integer taken as `c/1`.
    fn add(self, rhs: u16) -> (r: Ratio<BigInt>)
        ensures
            r@ == self@.sum(Fraction::integer(rhs as int)).reduced(),
    {
        self + Ratio::from_integer(lift_unsigned::<BigInt>(rhs as u128))
    }
}

impl AddSpecImpl<u16> for Ratio<BigInt> {
    open spec fn obeys_add_spec() -> bool {
        false
    }

    open spec fn add_req(self, rhs: u16) -> bool {
        Ratio::<BigInt>::can_add(self@, Fraction::integer(rhs as int))
    }

    open spec fn add_spec(self, rhs: u16) -> Ratio<BigInt> {
        arbitrary()
    }
}

impl Sub<u16> for Ratio<BigInt> {
    type Output = Ratio<BigInt>;

    /// `a/b - c`, the integer taken as `c/1`.
    fn sub(self, rhs: u16) -> (r: Ratio<BigInt>)
        ensures
            r@ == self@.difference(Fraction::integer(rhs as int)).reduced(),
    {
        self - Ratio::from_integer(lift_unsigned::<BigInt>(rhs as u128))
    }
}

impl SubSpecImpl<u16> for Ratio<BigInt> {
    open spec fn obeys_sub_spec() -> bool {
        false
    }

    open spec fn sub_req(self, rhs: u16) -> bool {
        Ratio::<BigInt>::can_sub(self@, Fraction::integer(rhs as int))
    }

    open spec fn sub_spec(self, rhs: u16) -> Ratio<BigInt> {
        arbitrary()
    }
}

impl Mul<u16> for Ratio<BigInt> {
    type Output = Ratio<BigInt>;

    /// `a/b * c`, the integer taken as `c/1`.
    fn mul(self, rhs: u16) -> (r: Ratio<BigInt>)
        ensures
            r@ == self@.product(Fraction::integer(rhs as int)).reduced(),
    {
        self * Ratio::from_integer(lift_unsigned::<BigInt>(rhs as u128))
    }
}

impl MulSpecImpl<u16> for Ratio<BigInt> {
    open spec fn obeys_mul_spec() -> bool {
        false
    }

    open spec fn mul_req(self, rhs: u16) -> bool {
        Ratio::<BigInt>::can_mul(self@, Fraction::integer(rhs as int))
    }

    open spec fn mul_spec(self, rhs: u16) -> Ratio<BigInt> {
        arbitrary()
    }
}

impl Div<u16> for Ratio<BigInt> {
    type Output = Ratio<BigInt>;

    /// `(a/b) / c`, the integer taken as `c/1`.
    fn div(self, rhs: u16) -> (r: Ratio<BigInt>)
        ensures
            r@ == self@.quotient(Fraction::integer(rhs as int)).reduced(),
    {
        self / Ratio::from_integer(lift_unsigned::<BigInt>(rhs as u128))
    }
}

impl DivSpecImpl<u16> for Ratio<BigInt> {
    open spec fn obeys_div_spec() -> bool {
        false
    }

    open spec fn div_req(self, rhs: u16) -> bool {
        Ratio::<BigInt>::can_div(self@, Fraction::integer(rhs as int))
    }

    open spec fn div_spec(self, rhs: u16) -> Ratio<BigInt> {
        arbitrary()
    }
}

impl Add<i32> for Ratio<BigInt> {
    type Output = Ratio<BigInt>;

    /// `a/b + c`, the integer taken as `c/1`.
    fn add(self, rhs: i32) -> (r: Ratio<BigInt>)
        ensures
            r@ == self@.sum(Fraction::integer(rhs as int)).reduced(),
    {
        self + Ratio::from_integer(lift_signed::<BigInt>(rhs as i128))
    }
}

impl AddSpecImpl<i32> for Ratio<BigInt> {
    open spec fn obeys_add_spec() -> bool {
        false
    }

    open spec fn add_req(self, rhs: i32) -> bool {
        Ratio::<BigInt>::can_add(self@, Fraction::integer(rhs as int))
    }

    open spec fn add_spec(self, rhs: i32) -> Ratio<BigInt> {
        arbitrary()
    }
}

impl Sub<i32> for Ratio<BigInt> {
    type Output = Ratio<BigInt>;

    /// `a/b - c`, the integer taken as `c/1`.
    fn sub(self, rhs: i32) -> (r: Ratio<BigInt>)
        ensures
            r@ == self@.difference(Fraction::integer(rhs as int)).reduced(),
    {
        self - Ratio::from_integer(lift_signed::<BigInt>(rhs as i128))
    }
}

impl SubSpecImpl<i32> for Ratio<BigInt> {
    open spec fn obeys_sub_spec() -> bool {
        false
    }

    open spec fn sub_req(self, rhs: i32) -> bool {
        Ratio::<BigInt>::can_sub(self@, Fraction::integer(rhs as int))
    }

    open spec fn sub_spec(self, rhs: i32) -> Ratio<BigInt> {
        arbitrary()
    }
}

impl Mul<i32> for Ratio<BigInt> {
    type Output = Ratio<BigInt>;

    /// `a/b * c`, the integer taken as `c/1`.
    fn mul(self, rhs: i32) -> (r: Ratio<BigInt>)
        ensures
            r@ == self@.product(Fraction::integer(rhs as int)).reduced(),
    {
        self * Ratio::from_integer(lift_signed::<BigInt>(rhs as i128))
    }
}

impl MulSpecImpl<i32> for Ratio<BigInt> {
    open spec fn obeys_mul_spec() -> bool {
        false
    }

    open spec fn mul_req(self, rhs: i32) -> bool {
        Ratio::<BigInt>::can_mul(self@, Fraction::integer(rhs as int))
    }

    open spec fn mul_spec(self, rhs: i32) -> Ratio<BigInt> {
        arbitrary()
    }
}

impl Div<i32> for Ratio<BigInt> {
    type Output = Ratio<BigInt>;

    /// `(a/b) / c`, the integer taken as `c/1`.
    fn div(self, rhs: i32) -> (r: Ratio<BigInt>)
        ensures
            r@ == self@.quotient(Fraction::integer(rhs as int)).reduced(),
    {
        self / Ratio::from_integer(lift_signed::<BigInt>(rhs as i128))
    }
}

impl DivSpecImpl<i32> for Ratio<BigInt> {
    open spec fn obeys_div_spec() -> bool {
        false
    }

    open spec fn div_req(self, rhs: i32) -> bool {
        Ratio::<BigInt>::can_div(self@, Fraction::integer(rhs as int))
    }

    open spec fn div_spec(self, rhs: i32) -> Ratio<BigInt> {
        arbitrary()
    }
}

impl Add<u32> for Ratio<BigInt> {
    type Output = Ratio<BigInt>;

    /// `a/b + c`, the integer taken as `c/1`.
    fn add(self, rhs: u32) -> (r: Ratio<BigInt>)
        ensures
            r@ == self@.sum(Fraction::integer(rhs as int)).reduced(),
    {
        self + Ratio::from_integer(lift_unsigned::<BigInt>(rhs as u128))
    }
}

impl AddSpecImpl<u32> for Ratio<BigInt> {
    open spec fn obeys_add_spec() -> bool {
        false
    }

    open spec fn add_req(self, rhs: u32) -> bool {
        Ratio::<BigInt>::can_add(self@, Fraction::integer(rhs as int))
    }

    open spec fn add_spec(self, rhs: u32) -> Ratio<BigInt> {
        arbitrary()
    }
}

impl Sub<u32> for Ratio<BigInt> {
    type Output = Ratio<BigInt>;

    /// `a/b - c`, the integer taken as `c/1`.
    fn sub(self, rhs: u32) -> (r: Ratio<BigInt>)
        ensures
            r@ == self@.difference(Fraction::integer(rhs as int)).reduced(),
    {
        self - Ratio::from_integer(lift_unsigned::<BigInt>(rhs as u128))
    }
}

impl SubSpecImpl<u32> for Ratio<BigInt> {
    open spec fn obeys_sub_spec() -> bool {
        false
    }

    open spec fn sub_req(self, rhs: u32) -> bool {
        Ratio::<BigInt>::can_sub(self@, Fraction::integer(rhs as int))
    }

    open spec fn sub_spec(self, rhs: u32) -> Ratio<BigInt> {
        arbitrary()
    }
}

impl Mul<u32> for Ratio<BigInt> {
    type Output = Ratio<BigInt>;

    /// `a/b * c`, the integer taken as `c/1`.
    fn mul(self, rhs: u32) -> (r: Ratio<BigInt>)
        ensures
            r@ == self@.product(Fraction::integer(rhs as int)).reduced(),
    {
        self * Ratio::from_integer(lift_unsigned::<BigInt>(rhs as u128))
    }
}

impl MulSpecImpl<u32> for Ratio<BigInt> {
    open spec fn obeys_mul_spec() -> bool {
        false
    }

    open spec fn mul_req(self, rhs: u32) -> bool {
        Ratio::<BigInt>::can_mul(self@, Fraction::integer(rhs as int))
    }

    open spec fn mul_spec(self, rhs: u32) -> Ratio<BigInt> {
        arbitrary()
    }
}

impl Div<u32> for Ratio<BigInt> {
    type Output = Ratio<BigInt>;

    /// `(a/b) / c`, the integer taken as `c/1`.
    fn div(self, rhs: u32) -> (r: Ratio<BigInt>)
        ensures
            r@ == self@.quotient(Fraction::integer(rhs as int)).reduced(),
    {
        self / Ratio::from_integer(lift_unsigned::<BigInt>(rhs as u128))
    }
}

impl DivSpecImpl<u32> for Ratio<BigInt> {
    open spec fn obeys_div_spec() -> bool {
        false
    }

    open spec fn div_req(self, rhs: u32) -> bool {
        Ratio::<BigInt>::can_div(self@, Fraction::integer(rhs as int))
    }

    open spec fn div_spec(self, rhs: u32) -> Ratio<BigInt> {
        arbitrary()
    }
}

impl Add<i64> for Ratio<BigInt> {
    type Output = Ratio<BigInt>;

    /// `a/b + c`, the integer taken as `c/1`.
    fn add(self, rhs: i64) -> (r: Ratio<BigInt>)
        ensures
            r@ == self@.sum(Fraction::integer(rhs as int)).reduced(),
    {
        self + Ratio::from_integer(lift_signed::<BigInt>(rhs as i128))
    }
}

impl AddSpecImpl<i64> for Ratio<BigInt> {
    open spec fn obeys_add_spec() -> bool {
        false
    }

    open spec fn add_req(self, rhs: i64) -> bool {
        Ratio::<BigInt>::can_add(self@, Fraction::integer(rhs as int))
    }

    open spec fn add_spec(self, rhs: i64) -> Ratio<BigInt> {
        arbitrary()
    }
}

impl Sub<i64> for Ratio<BigInt> {
    type Output = Ratio<BigInt>;

    /// `a/b - c`, the integer taken as `c/1`.
    fn sub(self, rhs: i64) -> (r: Ratio<BigInt>)
        ensures
            r@ == self@.difference(Fraction::integer(rhs as int)).reduced(),
    {
        self - Ratio::from_integer(lift_signed::<BigInt>(rhs as i128))
    }
}

impl SubSpecImpl<i64> for Ratio<BigInt> {
    open spec fn obeys_sub_spec() -> bool {
        false
    }

    open spec fn sub_req(self, rhs: i64) -> bool {
        Ratio::<BigInt>::can_sub(self@, Fraction::integer(rhs as int))
    }

    open spec fn sub_spec(self, rhs: i64) -> Ratio<BigInt> {
        arbitrary()
    }
}

impl Mul<i64> for Ratio<BigInt> {
    type Output = Ratio<BigInt>;

    /// `a/b * c`, the integer taken as `c/1`.
    fn mul(self, rhs: i64) -> (r: Ratio<BigInt>)
        ensures
            r@ == self@.product(Fraction::integer(rhs as int)).reduced(),
    {
        self * Ratio::from_integer(lift_signed::<BigInt>(rhs as i128))
    }
}

impl MulSpecImpl<i64> for Ratio<BigInt> {
    open spec fn obeys_mul_spec() -> bool {
        false
    }

    open spec fn mul_req(self, rhs: i64) -> bool {
        Ratio::<BigInt>::can_mul(self@, Fraction::integer(rhs as int))
    }

    open spec fn mul_spec(self, rhs: i64) -> Ratio<BigInt> {
        arbitrary()
    }
}

impl Div<i64> for Ratio<BigInt> {
    type Output = Ratio<BigInt>;

    /// `(a/b) / c`, the integer taken as `c/1`.
    fn div(self, rhs: i64) -> (r: Ratio<BigInt>)
        ensures
            r@ == self@.quotient(Fraction::integer(rhs as int)).reduced(),
    {
        self / Ratio::from_integer(lift_signed::<BigInt>(rhs as i128))
    }
}

impl DivSpecImpl<i64> for Ratio<BigInt> {
    open spec fn obeys_div_spec() -> bool {
        false
    }

    open spec fn div_req(self, rhs: i64) -> bool {
        Ratio::<BigInt>::can_div(self@, Fraction::integer(rhs as int))
    }

    open spec fn div_spec(self, rhs: i64) -> Ratio<BigInt> {
        arbitrary()
    }
}

impl Add<u64> for Ratio<BigInt> {
    type Output = Ratio<BigInt>;

    /// `a/b + c`, the integer taken as `c/1`.
    fn add(self, rhs: u64) -> (r: Ratio<BigInt>)
        ensures
            r@ == self@.sum(Fraction::integer(rhs as int)).reduced(),
    {
        self + Ratio::from_integer(lift_unsigned::<BigInt>(rhs as u128))
    }
}

impl AddSpecImpl<u64> for Ratio<BigInt> {
    open spec fn obeys_add_spec() -> bool {
        false
    }

    open spec fn add_req(self, rhs: u64) -> bool {
        Ratio::<BigInt>::can_add(self@, Fraction::integer(rhs as int))
    }

    open spec fn add_spec(self, rhs: u64) -> Ratio<BigInt> {
        arbitrary()
    }
}

impl Sub<u64> for Ratio<BigInt> {
    type Output = Ratio<BigInt>;

    /// `a/b - c`, the integer taken as `c/1`.
    fn sub(self, rhs: u64) -> (r: Ratio<BigInt>)
        ensures
            r@ == self@.difference(Fraction::integer(rhs as int)).reduced(),
    {
        self - Ratio::from_integer(lift_unsigned::<BigInt>(rhs as u128))
    }
}

impl SubSpecImpl<u64> for Ratio<BigInt> {
    open spec fn obeys_sub_spec() -> bool {
        false
    }

    open spec fn sub_req(self, rhs: u64) -> bool {
        Ratio::<BigInt>::can_sub(self@, Fraction::integer(rhs as int))
    }

    open spec fn sub_spec(self, rhs: u64) -> Ratio<BigInt> {
        arbitrary()
    }
}

impl Mul<u64> for Ratio<BigInt> {
    type Output = Ratio<BigInt>;

    /// `a/b * c`, the integer taken as `c/1`.
    fn mul(self, rhs: u64) -> (r: Ratio<BigInt>)
        ensures
            r@ == self@.product(Fraction::integer(rhs as int)).reduced(),
    {
        self * Ratio::from_integer(lift_unsigned::<BigInt>(rhs as u128))
    }
}

impl MulSpecImpl<u64> for Ratio<BigInt> {
    open spec fn obeys_mul_spec() -> bool {
        false
    }

    open spec fn mul_req(self, rhs: u64) -> bool {
        Ratio::<BigInt>::can_mul(self@, Fraction::integer(rhs as int))
    }

    open spec fn mul_spec(self, rhs: u64) -> Ratio<BigInt> {
        arbitrary()
    }
}

impl Div<u64> for Ratio<BigInt> {
    type Output = Ratio<BigInt>;

    /// `(a/b) / c`, the integer taken as `c/1`.
    fn div(self, rhs: u64) -> (r: Ratio<BigInt>)
        ensures
            r@ == self@.quotient(Fraction::integer(rhs as int)).reduced(),
    {
        self / Ratio::from_integer(lift_unsigned::<BigInt>(rhs as u128))
    }
}

impl DivSpecImpl<u64> for Ratio<BigInt> {
    open spec fn obeys_div_spec() -> bool {
        false
    }

    open spec fn div_req(self, rhs: u64) -> bool {
        Ratio::<BigInt>::can_div(self@, Fraction::integer(rhs as int))
    }

    open spec fn div_spec(self, rhs: u64) -> Ratio<BigInt> {
        arbitrary()
    }
}

impl Add<i128> for Ratio<BigInt> {
    type Output = Ratio<BigInt>;

    /// `a/b + c`, the integer taken as `c/1`.
    fn add(self, rhs: i128) -> (r: Ratio<BigInt>)
        ensures
            r@ == self@.sum(Fraction::integer(rhs as int)).reduced(),
    {
        self + Ratio::from_integer(lift_signed::<BigInt>(rhs as i128))
    }
}

impl AddSpecImpl<i128> for Ratio<BigInt> {
    open spec fn obeys_add_spec() -> bool {
        false
    }

    open spec fn add_req(self, rhs: i128) -> bool {
        Ratio::<BigInt>::can_add(self@, Fraction::integer(rhs as int))
    }

    open spec fn add_spec(self, rhs: i128) -> Ratio<BigInt> {
        arbitrary()
    }
}

impl Sub<i128> for Ratio<BigInt> {
    type Output = Ratio<BigInt>;

    /// `a/b - c`, the integer taken as `c/1`.
    fn sub(self, rhs: i128) -> (r: Ratio<BigInt>)
        ensures
            r@ == self@.difference(Fraction::integer(rhs as int)).reduced(),
    {
        self - Ratio::from_integer(lift_signed::<BigInt>(rhs as i128))
    }
}

impl SubSpecImpl<i128> for Ratio<BigInt> {
    open spec fn obeys_sub_spec() -> bool {
        false
    }

    open spec fn sub_req(self, rhs: i128) -> bool {
        Ratio::<BigInt>::can_sub(self@, Fraction::integer(rhs as int))
    }

    open spec fn sub_spec(self, rhs: i128) -> Ratio<BigInt> {
        arbitrary()
    }
}

impl Mul<i128> for Ratio<BigInt> {
    type Output = Ratio<BigInt>;

    /// `a/b * c`, the integer taken as `c/1`.
    fn mul(self, rhs: i128) -> (r: Ratio<BigInt>)
        ensures
            r@ == self@.product(Fraction::integer(rhs as int)).reduced(),
    {
        self * Ratio::from_integer(lift_signed::<BigInt>(rhs as i128))
    }
}

impl MulSpecImpl<i128> for Ratio<BigInt> {
    open spec fn obeys_mul_spec() -> bool {
        false
    }

    open spec fn mul_req(self, rhs: i128) -> bool {
        Ratio::<BigInt>::can_mul(self@, Fraction::integer(rhs as int))
    }

    open spec fn mul_spec(self, rhs: i128) -> Ratio<BigInt> {
        arbitrary()
    }
}

impl Div<i128> for Ratio<BigInt> {
    type Output = Ratio<BigInt>;

    /// `(a/b) / c`, the integer taken as `c/1`.
    fn div(self, rhs: i128) -> (r: Ratio<BigInt>)
        ensures
            r@ == self@.quotient(Fraction::integer(rhs as int)).reduced(),
    {
        self / Ratio::from_integer(lift_signed::<BigInt>(rhs as i128))
    }
}

impl DivSpecImpl<i128> for Ratio<BigInt> {
    open spec fn obeys_div_spec() -> bool {
        false
    }

    open spec fn div_req(self, rhs: i128) -> bool {
        Ratio::<BigInt>::can_div(self@, Fraction::integer(rhs as int))
    }

    open spec fn div_spec(self, rhs: i128) -> Ratio<BigInt> {
        arbitrary()
    }
}

impl Add<u128> for Ratio<BigInt> {
    type Output = Ratio<BigInt>;

    /// `a/b + c`, the integer taken as `c/1`.
    fn add(self, rhs: u128) -> (r: Ratio<BigInt>)
        ensures
            r@ == self@.sum(Fraction::integer(rhs as int)).reduced(),
    {
        self + Ratio::from_integer(lift_unsigned::<BigInt>(rhs as u128))
    }
}

impl AddSpecImpl<u128> for Ratio<BigInt> {
    open spec fn obeys_add_spec() -> bool {
        false
    }

    open spec fn add_req(self, rhs: u128) -> bool {
        Ratio::<BigInt>::can_add(self@, Fraction::integer(rhs as int))
    }

    open spec fn add_spec(self, rhs: u128) -> Ratio<BigInt> {
        arbitrary()
    }
}

impl Sub<u128> for Ratio<BigInt> {
    type Output = Ratio<BigInt>;

    /// `a/b - c`, the integer taken as `c/1`.
    fn sub(self, rhs: u128) -> (r: Ratio<BigInt>)
        ensures
            r@ == self@.difference(Fraction::integer(rhs as int)).reduced(),
    {
        self - Ratio::from_integer(lift_unsigned::<BigInt>(rhs as u128))
    }
}

impl SubSpecImpl<u128> for Ratio<BigInt> {
    open spec fn obeys_sub_spec() -> bool {
        false
    }

    open spec fn sub_req(self, rhs: u128) -> bool {
        Ratio::<BigInt>::can_sub(self@, Fraction::integer(rhs as int))
    }

    open spec fn sub_spec(self, rhs: u128) -> Ratio<BigInt> {
        arbitrary()
    }
}

impl Mul<u128> for Ratio<BigInt> {
    type Output = Ratio<BigInt>;

    /// `a/b * c`, the integer taken as `c/1`.
    fn mul(self, rhs: u128) -> (r: Ratio<BigInt>)
        ensures
            r@ == self@.product(Fraction::integer(rhs as int)).reduced(),
    {
        self * Ratio::from_integer(lift_unsigned::<BigInt>(rhs as u128))
    }
}

impl MulSpecImpl<u128> for Ratio<BigInt> {
    open spec fn obeys_mul_spec() -> bool {
        false
    }

    open spec fn mul_req(self, rhs: u128) -> bool {
        Ratio::<BigInt>::can_mul(self@, Fraction::integer(rhs as int))
    }

    open spec fn mul_spec(self, rhs: u128) -> Ratio<BigInt> {
        arbitrary()
    }
}

impl Div<u128> for Ratio<BigInt> {
    type Output = Ratio<BigInt>;

    /// `(a/b) / c`, the integer taken as `c/1`.
    fn div(self, rhs: u128) -> (r: Ratio<BigInt>)
        ensures
            r@ == self@.quotient(Fraction::integer(rhs as int)).reduced(),
    {
        self / Ratio::from_integer(lift_unsigned::<BigInt>(rhs as u128))
    }
}

impl DivSpecImpl<u128> for Ratio<BigInt> {
    open spec fn obeys_div_spec() -> bool {
        false
    }

    open spec fn div_req(self, rhs: u128) -> bool {
        Ratio::<BigInt>::can_div(self@, Fraction::integer(rhs as int))
    }

    open spec fn div_spec(self, rhs: u128) -> Ratio<BigInt> {
        arbitrary()
    }
}

} // verus!
