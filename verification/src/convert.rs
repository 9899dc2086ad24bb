//! Ratios from integers and from pairs.

use vstd::prelude::*;
use vstd::std_specs::convert::FromSpecImpl;
use crate::backing::Backing;
use crate::fraction::Fraction;
use crate::ratio::Ratio;

verus! {

impl<T: Backing> From<T> for Ratio<T> {
    /// The ratio `x / 1`.
    fn from(x: T) -> (r: Ratio<T>)
        ensures
            r@ == Fraction::integer(x.val()),
    {
        Ratio::from_integer(x)
    }
}

impl<T: Backing> FromSpecImpl<T> for Ratio<T> {
    open spec fn obeys_from_spec() -> bool {
        false
    }

    open spec fn from_spec(x: T) -> Ratio<T> {
        arbitrary()
    }
}

impl<T: Backing> Ratio<T> {
    /// The ratio of a pair `(numerator, denominator)`, in lowest terms.
    pub fn from_pair(pair: (T, T)) -> (r: Ratio<T>)
        requires
            Self::can_reduce(Fraction { num: pair.0.val(), den: pair.1.val() }),
        ensures
            r@ == (Fraction { num: pair.0.val(), den: pair.1.val() }).reduced(),
    {
        Ratio::new(pair.0, pair.1)
    }

    /// The ratio of a pair `(numerator, denominator)` as it stands, or
    /// `None` where the denominator is zero.
    pub fn from_raw_pair(pair: (T, T)) -> (r: Option<Ratio<T>>)
        ensures
            r is Some <==> pair.1.val() != 0,
            r matches Some(v) ==> v@ == (Fraction { num: pair.0.val(), den: pair.1.val() }),
    {
        if pair.1.is_zero() {
            None
        } else {
            Some(Ratio::new_raw(pair.0, pair.1))
        }
    }

    /// The ratio `n / 1`, or `None` where `T` cannot hold `n`.
    pub fn from_i64(n: i64) -> (r: Option<Ratio<T>>)
        ensures
            r is Some <==> T::fits(n as int),
            r matches Some(v) ==> v@ == Fraction::integer(n as int),
    {
        Self::from_i128(n as i128)
    }

    /// The ratio `n / 1`, or `None` where `T` cannot hold `n`.
    pub fn from_u64(n: u64) -> (r: Option<Ratio<T>>)
        ensures
            r is Some <==> T::fits(n as int),
            r matches Some(v) ==> v@ == Fraction::integer(n as int),
    {
        Self::from_u128(n as u128)
    }

    /// The ratio `n / 1`, or `None` where `T` cannot hold `n`.
    pub fn from_i128(n: i128) -> (r: Option<Ratio<T>>)
        ensures
            r is Some <==> T::fits(n as int),
            r matches Some(v) ==> v@ == Fraction::integer(n as int),
    {
        match T::from_i128(n) {
            Some(t) => Some(Ratio::from_integer(t)),
            None => None,
        }
    }

    /// The ratio `n / 1`, or `None` where `T` cannot hold `n`.
    pub fn from_u128(n: u128) -> (r: Option<Ratio<T>>)
        ensures
            r is Some <==> T::fits(n as int),
            r matches Some(v) ==> v@ == Fraction::integer(n as int),
    {
        match T::from_u128(n) {
            Some(t) => Some(Ratio::from_integer(t)),
            None => None,
        }
    }
}

} // verus!
