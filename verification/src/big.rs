//! The integer capability of `num_bigint::BigInt`.
//!
//! Verus does not see inside a `BigInt`. `big_value` names the integer that
//! one holds, and each operation of `num_bigint` that this crate uses is
//! given, without proof, the contract that its documentation states.

use vstd::prelude::*;
use vstd::arithmetic::power::pow;
use num_bigint::BigInt;
use crate::backing::{Arith, Backing};
use crate::math::{floor_div, floor_mod, gcd, trunc_div, trunc_rem};
use crate::text::{
    decimal_text, digits_value, has_sign, is_digit, lemma_decimal_round_trip, unsigned_part,
};

verus! {

/// `num_bigint::BigInt`, made known so that it can stand in signatures.
#[verifier::external_type_specification]
#[verifier::external_body]
pub struct ExBigInt(BigInt);

/// A ratio of integers of any size.
pub type BigRational = crate::ratio::Ratio<BigInt>;

/// The integer that a `BigInt` holds.
pub uninterp spec fn big_value(b: BigInt) -> int;

/// `num_traits::Zero::zero` for `BigInt`: the value 0.
#[verifier::external_body]
fn big_zero() -> (r: BigInt)
    ensures
        big_value(r) == 0,
{
    <BigInt as num_traits::Zero>::zero()
}

/// `num_traits::One::one` for `BigInt`: the value 1.
#[verifier::external_body]
fn big_one() -> (r: BigInt)
    ensures
        big_value(r) == 1,
{
    <BigInt as num_traits::One>::one()
}

/// `Clone::clone` for `BigInt`: a second `BigInt` with the same value.
#[verifier::external_body]
fn big_clone(a: &BigInt) -> (r: BigInt)
    ensures
        big_value(r) == big_value(*a),
{
    a.clone()
}

/// `num_traits::Zero::is_zero` for `BigInt`: whether the value is 0.
#[verifier::external_body]
fn big_is_zero(a: &BigInt) -> (r: bool)
    ensures
        r == (big_value(*a) == 0),
{
    num_traits::Zero::is_zero(a)
}

/// `PartialEq::eq` for `BigInt`: whether the two values are equal.
#[verifier::external_body]
fn big_same(a: &BigInt, b: &BigInt) -> (r: bool)
    ensures
        r == (big_value(*a) == big_value(*b)),
{
    a == b
}

/// `PartialOrd::lt` for `BigInt`: whether the first value is the smaller.
#[verifier::external_body]
fn big_less(a: &BigInt, b: &BigInt) -> (r: bool)
    ensures
        r == (big_value(*a) < big_value(*b)),
{
    a < b
}

/// `Add::add` for `&BigInt`: the exact sum.
#[verifier::external_body]
fn big_plus(a: &BigInt, b: &BigInt) -> (r: BigInt)
    ensures
        big_value(r) == big_value(*a) + big_value(*b),
{
    a + b
}

/// `Sub::sub` for `&BigInt`: the exact difference.
#[verifier::external_body]
fn big_minus(a: &BigInt, b: &BigInt) -> (r: BigInt)
    ensures
        big_value(r) == big_value(*a) - big_value(*b),
{
    a - b
}

/// `Mul::mul` for `&BigInt`: the exact product.
#[verifier::external_body]
fn big_times(a: &BigInt, b: &BigInt) -> (r: BigInt)
    ensures
        big_value(r) == big_value(*a) * big_value(*b),
{
    a * b
}

/// `num_integer::Integer::div_rem` for `BigInt`: quotient toward zero and
/// the remainder, which has the sign of the dividend. It panics on a zero
/// divisor.
#[verifier::external_body]
fn big_div_rem(a: &BigInt, b: &BigInt) -> (r: (BigInt, BigInt))
    requires
        big_value(*b) != 0,
    ensures
        big_value(r.0) == trunc_div(big_value(*a), big_value(*b)),
        big_value(r.1) == trunc_rem(big_value(*a), big_value(*b)),
{
    num_integer::Integer::div_rem(a, b)
}

/// `num_integer::Integer::div_mod_floor` for `BigInt`: quotient toward minus
/// infinity and the remainder, which has the sign of the divisor. It panics
/// on a zero divisor.
#[verifier::external_body]
fn big_div_mod_floor(a: &BigInt, b: &BigInt) -> (r: (BigInt, BigInt))
    requires
        big_value(*b) != 0,
    ensures
        big_value(r.0) == floor_div(big_value(*a), big_value(*b)),
        big_value(r.1) == floor_mod(big_value(*a), big_value(*b)),
{
    num_integer::Integer::div_mod_floor(a, b)
}

/// `num_integer::Integer::gcd` for `BigInt`: the greatest common divisor,
/// never negative.
#[verifier::external_body]
fn big_gcd(a: &BigInt, b: &BigInt) -> (r: BigInt)
    ensures
        big_value(r) == gcd(big_value(*a), big_value(*b)),
{
    num_integer::Integer::gcd(a, b)
}

/// `num_integer::Integer::is_even` for `BigInt`: whether 2 divides the value.
#[verifier::external_body]
fn big_is_even(a: &BigInt) -> (r: bool)
    ensures
        r == (big_value(*a) % 2 == 0),
{
    num_integer::Integer::is_even(a)
}

/// `num_traits::Pow::pow` for `&BigInt` and `u32`: the exact power, with
/// 1 for the exponent 0.
#[verifier::external_body]
fn big_pow(a: &BigInt, exp: u32) -> (r: BigInt)
    ensures
        big_value(r) == pow(big_value(*a), exp as nat),
{
    num_traits::Pow::pow(a, exp)
}

/// `From<i128>` for `BigInt`: the same value.
#[verifier::external_body]
fn big_from_i128(n: i128) -> (r: BigInt)
    ensures
        big_value(r) == n,
{
    BigInt::from(n)
}

/// `From<u128>` for `BigInt`: the same value.
#[verifier::external_body]
fn big_from_u128(n: u128) -> (r: BigInt)
    ensures
        big_value(r) == n,
{
    BigInt::from(n)
}

/// `num_traits::ToPrimitive::to_i128` for `BigInt`: the value as an
/// `i128`, or `None` where it is out of that range.
#[verifier::external_body]
fn big_to_i128(a: &BigInt) -> (r: Option<i128>)
    ensures
        r is Some <==> i128::MIN <= big_value(*a) <= i128::MAX,
        r matches Some(v) ==> v == big_value(*a),
{
    num_traits::ToPrimitive::to_i128(a)
}

/// `num_traits::Num::from_str_radix` for `BigInt`: the integer that the
/// text stands for, or `None` for the error. It panics on a radix outside
/// 2 to 36.
#[verifier::external_body]
fn big_parse(s: &str, radix: u32) -> (r: Option<BigInt>)
    requires
        2 <= radix <= 36,
    ensures
        r is Some <==> big_text_value(s@, radix as int) is Some,
        r matches Some(v) ==> big_text_value(s@, radix as int) == Some(big_value(v)),
{
    <BigInt as num_traits::Num>::from_str_radix(s, radix).ok()
}

/// `ToString::to_string` for `BigInt`: the decimal form, with a minus sign
/// where the value is negative.
#[verifier::external_body]
fn big_to_text(a: &BigInt) -> (r: String)
    ensures
        r@ == decimal_text(big_value(*a)),
{
    a.to_string()
}

impl Arith for BigInt {
    open spec fn val(&self) -> int {
        big_value(*self)
    }

    open spec fn fits(v: int) -> bool {
        true
    }

    proof fn lemma_val_fits(&self) {
    }

    proof fn lemma_fits_between(lo: int, mid: int, hi: int) {
    }

    proof fn lemma_fits_small() {
    }

    proof fn lemma_fits_negation(v: int) {
    }

    fn zero() -> (r: Self) {
        big_zero()
    }

    fn one() -> (r: Self) {
        big_one()
    }

    fn from_small(n: u8) -> (r: Self) {
        big_from_u128(n as u128)
    }

    fn dup(&self) -> (r: Self) {
        big_clone(self)
    }

    fn is_zero(&self) -> (r: bool) {
        big_is_zero(self)
    }

    fn same(&self, other: &Self) -> (r: bool) {
        big_same(self, other)
    }

    fn less(&self, other: &Self) -> (r: bool) {
        big_less(self, other)
    }

    fn plus(&self, other: &Self) -> (r: Self) {
        big_plus(self, other)
    }

    fn minus(&self, other: &Self) -> (r: Self) {
        big_minus(self, other)
    }

    fn times(&self, other: &Self) -> (r: Self) {
        big_times(self, other)
    }

    fn div_trunc(&self, other: &Self) -> (r: Self) {
        big_div_rem(self, other).0
    }

    fn rem_trunc(&self, other: &Self) -> (r: Self) {
        big_div_rem(self, other).1
    }

    fn checked_plus(&self, other: &Self) -> (r: Option<Self>) {
        Some(big_plus(self, other))
    }

    fn checked_minus(&self, other: &Self) -> (r: Option<Self>) {
        Some(big_minus(self, other))
    }

    fn checked_times(&self, other: &Self) -> (r: Option<Self>) {
        Some(big_times(self, other))
    }

    fn to_i128(&self) -> (r: Option<i128>) {
        big_to_i128(self)
    }

    fn checked_div_rem(&self, other: &Self) -> (r: Option<(Self, Self)>) {
        Some(big_div_rem(self, other))
    }
}

/// `s` without the separators `_`.
pub open spec fn without_separators(s: Seq<char>) -> Seq<char>
    decreases s.len(),
{
    if s.len() == 0 {
        s
    } else if s.last() == '_' {
        without_separators(s.drop_last())
    } else {
        without_separators(s.drop_last()).push(s.last())
    }
}

/// The integer that a text stands for to `BigInt`: an optional sign, then
/// digits in `radix` with separators `_` anywhere among them but in front.
pub open spec fn big_text_value(s: Seq<char>, radix: int) -> Option<int> {
    let body = unsigned_part(s, true);
    if body.len() > 0 && body[0] != '_' && (forall|i: int|
        0 <= i < body.len() ==> #[trigger] body[i] == '_' || is_digit(body[i], radix)) {
        let size = digits_value(without_separators(body), radix);
        if s[0] == '-' {
            Some(-size)
        } else {
            Some(size)
        }
    } else {
        None
    }
}

/// A text without separators is left as it is.
pub proof fn lemma_no_separators(s: Seq<char>)
    requires
        forall|i: int| 0 <= i < s.len() ==> #[trigger] s[i] != '_',
    ensures
        without_separators(s) == s,
    decreases s.len(),
{
    if s.len() > 0 {
        lemma_no_separators(s.drop_last());
        assert(s.drop_last().push(s.last()) =~= s);
    }
}

impl Backing for BigInt {
    open spec fn text_value(s: Seq<char>, radix: int) -> Option<int> {
        big_text_value(s, radix)
    }

    proof fn lemma_text_round_trip(v: int) {
        lemma_decimal_round_trip(v, true);
        let s = decimal_text(v);
        let body = unsigned_part(s, true);
        assert forall|i: int| 0 <= i < body.len() implies #[trigger] body[i] != '_' by {
            if has_sign(s, true) {
                assert(body[i] == s[i + 1]);
            }
        }
        lemma_no_separators(body);
    }

    fn parse_radix(s: &str, radix: u32) -> (r: Option<Self>) {
        big_parse(s, radix)
    }

    fn to_text(&self) -> (r: String) {
        big_to_text(self)
    }

    fn gcd(&self, other: &Self) -> (r: Self) {
        big_gcd(self, other)
    }

    fn checked_div_mod_floor(&self, other: &Self) -> (r: Option<(Self, Self)>) {
        Some(big_div_mod_floor(self, other))
    }

    fn is_even(&self) -> (r: bool) {
        big_is_even(self)
    }

    fn pow(&self, exp: u32) -> (r: Self) {
        big_pow(self, exp)
    }

    fn max_value() -> (r: Option<Self>) {
        None
    }

    fn from_i128(n: i128) -> (r: Option<Self>) {
        Some(big_from_i128(n))
    }

    fn from_u128(n: u128) -> (r: Option<Self>) {
        Some(big_from_u128(n))
    }
}

} // verus!
