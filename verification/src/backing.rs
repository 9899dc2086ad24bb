//! The integer capability: what a type must offer to stand behind a `Ratio`.
//!
//! `Arith` holds the value model and the ring operations; `Backing` adds the
//! number-theoretic and textual operations on top. Machine integers and
//! `num_bigint::BigInt` implement both.

use vstd::prelude::*;
use vstd::arithmetic::power::pow;
use crate::math::{floor_div, floor_mod, gcd, trunc_div, trunc_rem};
use crate::text::decimal_text;

verus! {

/// Value model and ring operations of a backing integer type.
///
/// Every value stands for the mathematical integer `val()`. `fits(v)` says
/// whether the type can represent `v`; the representable integers form an
/// interval that contains 0 to 36. An operation whose exact result does
/// not fit is left out by `requires`; the `checked_` forms report it as `None`.
pub trait Arith: Sized {
    /// The integer that `self` stands for.
    spec fn val(&self) -> int;

    /// Whether the type can represent `v`.
    spec fn fits(v: int) -> bool;

    /// A value of the type is representable.
    proof fn lemma_val_fits(&self)
        ensures
            Self::fits(self.val()),
    ;

    /// The representable integers form an interval.
    proof fn lemma_fits_between(lo: int, mid: int, hi: int)
        requires
            Self::fits(lo),
            Self::fits(hi),
            lo <= mid <= hi,
        ensures
            Self::fits(mid),
    ;

    /// The integers from 0 to 36 are representable: the digits and the
    /// radices of a textual form among them.
    proof fn lemma_fits_small()
        ensures
            Self::fits(0),
            Self::fits(1),
            Self::fits(2),
            Self::fits(36),
    ;

    /// Where negative integers are representable at all, the negative of a
    /// positive value is, and so is the negative of a negative value less one.
    proof fn lemma_fits_negation(v: int)
        requires
            Self::fits(v),
        ensures
            Self::fits(-1) && v > 0 ==> Self::fits(-v),
            Self::fits(-1) && v < 0 ==> Self::fits(-v - 1),
    ;

    /// The value 0.
    fn zero() -> (r: Self)
        ensures
            r.val() == 0,
    ;

    /// The value 1.
    fn one() -> (r: Self)
        ensures
            r.val() == 1,
    ;

    /// The value for an integer from 0 to 36.
    fn from_small(n: u8) -> (r: Self)
        requires
            n <= 36,
        ensures
            r.val() == n,
    ;

    /// A second value for the same integer.
    fn dup(&self) -> (r: Self)
        ensures
            r.val() == self.val(),
    ;

    /// Whether the value is 0.
    fn is_zero(&self) -> (r: bool)
        ensures
            r == (self.val() == 0),
    ;

    /// Whether the two values are equal.
    fn same(&self, other: &Self) -> (r: bool)
        ensures
            r == (self.val() == other.val()),
    ;

    /// Whether `self` is the smaller value.
    fn less(&self, other: &Self) -> (r: bool)
        ensures
            r == (self.val() < other.val()),
    ;

    /// The sum, which fits.
    fn plus(&self, other: &Self) -> (r: Self)
        requires
            Self::fits(self.val() + other.val()),
        ensures
            r.val() == self.val() + other.val(),
    ;

    /// The difference, which fits.
    fn minus(&self, other: &Self) -> (r: Self)
        requires
            Self::fits(self.val() - other.val()),
        ensures
            r.val() == self.val() - other.val(),
    ;

    /// The product, which fits.
    fn times(&self, other: &Self) -> (r: Self)
        requires
            Self::fits(self.val() * other.val()),
        ensures
            r.val() == self.val() * other.val(),
    ;

    /// Division rounded toward zero.
    fn div_trunc(&self, other: &Self) -> (r: Self)
        requires
            other.val() != 0,
            Self::fits(trunc_div(self.val(), other.val())),
        ensures
            r.val() == trunc_div(self.val(), other.val()),
    ;

    /// Remainder of the division rounded toward zero.
    fn rem_trunc(&self, other: &Self) -> (r: Self)
        requires
            other.val() != 0,
            Self::fits(trunc_div(self.val(), other.val())),
        ensures
            r.val() == trunc_rem(self.val(), other.val()),
    ;

    /// The sum, or `None` where it does not fit.
    fn checked_plus(&self, other: &Self) -> (r: Option<Self>)
        ensures
            r is Some <==> Self::fits(self.val() + other.val()),
            r matches Some(v) ==> v.val() == self.val() + other.val(),
    ;

    /// The difference, or `None` where it does not fit.
    fn checked_minus(&self, other: &Self) -> (r: Option<Self>)
        ensures
            r is Some <==> Self::fits(self.val() - other.val()),
            r matches Some(v) ==> v.val() == self.val() - other.val(),
    ;

    /// The product, or `None` where it does not fit.
    fn checked_times(&self, other: &Self) -> (r: Option<Self>)
        ensures
            r is Some <==> Self::fits(self.val() * other.val()),
            r matches Some(v) ==> v.val() == self.val() * other.val(),
    ;

    /// The value as an `i128`, or `None` where that cannot hold it.
    fn to_i128(&self) -> (r: Option<i128>)
        ensures
            r is Some <==> i128::MIN <= self.val() <= i128::MAX,
            r matches Some(v) ==> v == self.val(),
    ;

    /// Quotient and remainder of the division rounded toward zero, or `None`
    /// where the quotient is not representable.
    fn checked_div_rem(&self, other: &Self) -> (r: Option<(Self, Self)>)
        requires
            other.val() != 0,
        ensures
            r is Some <==> Self::fits(trunc_div(self.val(), other.val())),
            r matches Some(qr) ==> qr.0.val() == trunc_div(self.val(), other.val())
                && qr.1.val() == trunc_rem(self.val(), other.val()),
    ;
}

/// The full integer capability behind a `Ratio`.
pub trait Backing: Arith {
    /// The integer that a text stands for in `radix`, or `None` where
    /// `parse_radix` takes it for none.
    spec fn text_value(s: Seq<char>, radix: int) -> Option<int>;

    /// The decimal form of a representable integer stands for it.
    proof fn lemma_text_round_trip(v: int)
        requires
            Self::fits(v),
        ensures
            Self::text_value(decimal_text(v), 10) == Some(v),
    ;

    /// The integer that `s` stands for in `radix`.
    fn parse_radix(s: &str, radix: u32) -> (r: Option<Self>)
        requires
            2 <= radix <= 36,
        ensures
            r is Some <==> Self::text_value(s@, radix as int) is Some,
            r matches Some(v) ==> Self::text_value(s@, radix as int) == Some(v.val()),
    ;

    /// The decimal form of `self`.
    fn to_text(&self) -> (r: String)
        ensures
            r@ == decimal_text(self.val()),
    ;

    /// Greatest common divisor; never negative.
    fn gcd(&self, other: &Self) -> (r: Self)
        requires
            Self::fits(gcd(self.val(), other.val())),
        ensures
            r.val() == gcd(self.val(), other.val()),
    ;

    /// Quotient rounded toward minus infinity and its remainder, or `None`
    /// where the quotient is not representable.
    fn checked_div_mod_floor(&self, other: &Self) -> (r: Option<(Self, Self)>)
        requires
            other.val() != 0,
        ensures
            r is Some <==> Self::fits(floor_div(self.val(), other.val())),
            r matches Some(qr) ==> qr.0.val() == floor_div(self.val(), other.val())
                && qr.1.val() == floor_mod(self.val(), other.val()),
    ;

    /// Whether 2 divides the value.
    fn is_even(&self) -> (r: bool)
        ensures
            r == (self.val() % 2 == 0),
    ;

    /// `self` raised to the power `exp`.
    fn pow(&self, exp: u32) -> (r: Self)
        requires
            Self::fits(pow(self.val(), exp as nat)),
        ensures
            r.val() == pow(self.val(), exp as nat),
    ;

    /// The greatest representable value, where there is one.
    fn max_value() -> (r: Option<Self>)
        ensures
            r matches Some(m) ==> forall|v: int| Self::fits(v) ==> v <= m.val(),
            r is None ==> forall|v: int| v >= 0 ==> Self::fits(v),
    ;

    /// The value `n`, or `None` where it does not fit.
    fn from_i128(n: i128) -> (r: Option<Self>)
        ensures
            r is Some <==> Self::fits(n as int),
            r matches Some(v) ==> v.val() == n,
    ;

    /// The value `n`, or `None` where it does not fit.
    fn from_u128(n: u128) -> (r: Option<Self>)
        ensures
            r is Some <==> Self::fits(n as int),
            r matches Some(v) ==> v.val() == n,
    ;
}

} // verus!
