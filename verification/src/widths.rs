//! Ratios of one machine integer type from integers of another: always
//! where the target type holds every value of the source type, and
//! on trial where it does not.

use vstd::prelude::*;
use vstd::std_specs::convert::{FromSpecImpl, TryFromSpecImpl};
use crate::backing::Arith;
use crate::fraction::Fraction;
use crate::ratio::Ratio;

verus! {

impl From<u8> for Ratio<u128> {
    /// The ratio `n / 1`.
    fn from(n: u8) -> (r: Ratio<u128>)
        ensures
            r@ == Fraction::integer(n as int),
    {
        Ratio::from_integer(n as u128)
    }
}

impl FromSpecImpl<u8> for Ratio<u128> {
    open spec fn obeys_from_spec() -> bool {
        false
    }

    open spec fn from_spec(n: u8) -> Ratio<u128> {
        arbitrary()
    }
}

impl From<u16> for Ratio<u128> {
    /// The ratio `n / 1`.
    fn from(n: u16) -> (r: Ratio<u128>)
        ensures
            r@ == Fraction::integer(n as int),
    {
        Ratio::from_integer(n as u128)
    }
}

impl FromSpecImpl<u16> for Ratio<u128> {
    open spec fn obeys_from_spec() -> bool {
        false
    }

    open spec fn from_spec(n: u16) -> Ratio<u128> {
        arbitrary()
    }
}

impl From<u32> for Ratio<u128> {
    /// The ratio `n / 1`.
    fn from(n: u32) -> (r: Ratio<u128>)
        ensures
            r@ == Fraction::integer(n as int),
    {
        Ratio::from_integer(n as u128)
    }
}

impl FromSpecImpl<u32> for Ratio<u128> {
    open spec fn obeys_from_spec() -> bool {
        false
    }

    open spec fn from_spec(n: u32) -> Ratio<u128> {
        arbitrary()
    }
}

impl From<u64> for Ratio<u128> {
    /// The ratio `n / 1`.
    fn from(n: u64) -> (r: Ratio<u128>)
        ensures
            r@ == Fraction::integer(n as int),
    {
        Ratio::from_integer(n as u128)
    }
}

impl FromSpecImpl<u64> for Ratio<u128> {
    open spec fn obeys_from_spec() -> bool {
        false
    }

    open spec fn from_spec(n: u64) -> Ratio<u128> {
        arbitrary()
    }
}

impl From<u8> for Ratio<i128> {
    /// The ratio `n / 1`.
    fn from(n: u8) -> (r: Ratio<i128>)
        ensures
            r@ == Fraction::integer(n as int),
    {
        Ratio::from_integer(n as i128)
    }
}

impl FromSpecImpl<u8> for Ratio<i128> {
    open spec fn obeys_from_spec() -> bool {
        false
    }

    open spec fn from_spec(n: u8) -> Ratio<i128> {
        arbitrary()
    }
}

impl From<i8> for Ratio<i128> {
    /// The ratio `n / 1`.
    fn from(n: i8) -> (r: Ratio<i128>)
        ensures
            r@ == Fraction::integer(n as int),
    {
        Ratio::from_integer(n as i128)
    }
}

impl FromSpecImpl<i8> for Ratio<i128> {
    open spec fn obeys_from_spec() -> bool {
        false
    }

    open spec fn from_spec(n: i8) -> Ratio<i128> {
        arbitrary()
    }
}

impl From<u16> for Ratio<i128> {
    /// The ratio `n / 1`.
    fn from(n: u16) -> (r: Ratio<i128>)
        ensures
            r@ == Fraction::integer(n as int),
    {
        Ratio::from_integer(n as i128)
    }
}

impl FromSpecImpl<u16> for Ratio<i128> {
    open spec fn obeys_from_spec() -> bool {
        false
    }

    open spec fn from_spec(n: u16) -> Ratio<i128> {
        arbitrary()
    }
}

impl From<i16> for Ratio<i128> {
    /// The ratio `n / 1`.
    fn from(n: i16) -> (r: Ratio<i128>)
        ensures
            r@ == Fraction::integer(n as int),
    {
        Ratio::from_integer(n as i128)
    }
}

impl FromSpecImpl<i16> for Ratio<i128> {
    open spec fn obeys_from_spec() -> bool {
        false
    }

    open spec fn from_spec(n: i16) -> Ratio<i128> {
        arbitrary()
    }
}

impl From<u32> for Ratio<i128> {
    /// The ratio `n / 1`.
    fn from(n: u32) -> (r: Ratio<i128>)
        ensures
            r@ == Fraction::integer(n as int),
    {
        Ratio::from_integer(n as i128)
    }
}

impl FromSpecImpl<u32> for Ratio<i128> {
    open spec fn obeys_from_spec() -> bool {
        false
    }

    open spec fn from_spec(n: u32) -> Ratio<i128> {
        arbitrary()
    }
}

impl From<i32> for Ratio<i128> {
    /// The ratio `n / 1`.
    fn from(n: i32) -> (r: Ratio<i128>)
        ensures
            r@ == Fraction::integer(n as int),
    {
        Ratio::from_integer(n as i128)
    }
}

impl FromSpecImpl<i32> for Ratio<i128> {
    open spec fn obeys_from_spec() -> bool {
        false
    }

    open spec fn from_spec(n: i32) -> Ratio<i128> {
        arbitrary()
    }
}

impl From<u64> for Ratio<i128> {
    /// The ratio `n / 1`.
    fn from(n: u64) -> (r: Ratio<i128>)
        ensures
            r@ == Fraction::integer(n as int),
    {
        Ratio::from_integer(n as i128)
    }
}

impl FromSpecImpl<u64> for Ratio<i128> {
    open spec fn obeys_from_spec() -> bool {
        false
    }

    open spec fn from_spec(n: u64) -> Ratio<i128> {
        arbitrary()
    }
}

impl From<i64> for Ratio<i128> {
    /// The ratio `n / 1`.
    fn from(n: i64) -> (r: Ratio<i128>)
        ensures
            r@ == Fraction::integer(n as int),
    {
        Ratio::from_integer(n as i128)
    }
}

impl FromSpecImpl<i64> for Ratio<i128> {
    open spec fn obeys_from_spec() -> bool {
        false
    }

    open spec fn from_spec(n: i64) -> Ratio<i128> {
        arbitrary()
    }
}

impl From<u8> for Ratio<u64> {
    /// The ratio `n / 1`.
    fn from(n: u8) -> (r: Ratio<u64>)
        ensures
            r@ == Fraction::integer(n as int),
    {
        Ratio::from_integer(n as u64)
    }
}

impl FromSpecImpl<u8> for Ratio<u64> {
    open spec fn obeys_from_spec() -> bool {
        false
    }

    open spec fn from_spec(n: u8) -> Ratio<u64> {
        arbitrary()
    }
}

impl From<u16> for Ratio<u64> {
    /// The ratio `n / 1`.
    fn from(n: u16) -> (r: Ratio<u64>)
        ensures
            r@ == Fraction::integer(n as int),
    {
        Ratio::from_integer(n as u64)
    }
}

impl FromSpecImpl<u16> for Ratio<u64> {
    open spec fn obeys_from_spec() -> bool {
        false
    }

    open spec fn from_spec(n: u16) -> Ratio<u64> {
        arbitrary()
    }
}

impl From<u32> for Ratio<u64> {
    /// The ratio `n / 1`.
    fn from(n: u32) -> (r: Ratio<u64>)
        ensures
            r@ == Fraction::integer(n as int),
    {
        Ratio::from_integer(n as u64)
    }
}

impl FromSpecImpl<u32> for Ratio<u64> {
    open spec fn obeys_from_spec() -> bool {
        false
    }

    open spec fn from_spec(n: u32) -> Ratio<u64> {
        arbitrary()
    }
}

impl From<u8> for Ratio<i64> {
    /// The ratio `n / 1`.
    fn from(n: u8) -> (r: Ratio<i64>)
        ensures
            r@ == Fraction::integer(n as int),
    {
        Ratio::from_integer(n as i64)
    }
}

impl FromSpecImpl<u8> for Ratio<i64> {
    open spec fn obeys_from_spec() -> bool {
        false
    }

    open spec fn from_spec(n: u8) -> Ratio<i64> {
        arbitrary()
    }
}

impl From<i8> for Ratio<i64> {
    /// The ratio `n / 1`.
    fn from(n: i8) -> (r: Ratio<i64>)
        ensures
            r@ == Fraction::integer(n as int),
    {
        Ratio::from_integer(n as i64)
    }
}

impl FromSpecImpl<i8> for Ratio<i64> {
    open spec fn obeys_from_spec() -> bool {
        false
    }

    open spec fn from_spec(n: i8) -> Ratio<i64> {
        arbitrary()
    }
}

impl From<u16> for Ratio<i64> {
    /// The ratio `n / 1`.
    fn from(n: u16) -> (r: Ratio<i64>)
        ensures
            r@ == Fraction::integer(n as int),
    {
        Ratio::from_integer(n as i64)
    }
}

impl FromSpecImpl<u16> for Ratio<i64> {
    open spec fn obeys_from_spec() -> bool {
        false
    }

    open spec fn from_spec(n: u16) -> Ratio<i64> {
        arbitrary()
    }
}

impl From<i16> for Ratio<i64> {
    /// The ratio `n / 1`.
    fn from(n: i16) -> (r: Ratio<i64>)
        ensures
            r@ == Fraction::integer(n as int),
    {
        Ratio::from_integer(n as i64)
    }
}

impl FromSpecImpl<i16> for Ratio<i64> {
    open spec fn obeys_from_spec() -> bool {
        false
    }

    open spec fn from_spec(n: i16) -> Ratio<i64> {
        arbitrary()
    }
}

impl From<u32> for Ratio<i64> {
    /// The ratio `n / 1`.
    fn from(n: u32) -> (r: Ratio<i64>)
        ensures
            r@ == Fraction::integer(n as int),
    {
        Ratio::from_integer(n as i64)
    }
}

impl FromSpecImpl<u32> for Ratio<i64> {
    open spec fn obeys_from_spec() -> bool {
        false
    }

    open spec fn from_spec(n: u32) -> Ratio<i64> {
        arbitrary()
    }
}

impl From<i32> for Ratio<i64> {
    /// The ratio `n / 1`.
    fn from(n: i32) -> (r: Ratio<i64>)
        ensures
            r@ == Fraction::integer(n as int),
    {
        Ratio::from_integer(n as i64)
    }
}

impl FromSpecImpl<i32> for Ratio<i64> {
    open spec fn obeys_from_spec() -> bool {
        false
    }

    open spec fn from_spec(n: i32) -> Ratio<i64> {
        arbitrary()
    }
}

impl From<u8> for Ratio<u32> {
    /// The ratio `n / 1`.
    fn from(n: u8) -> (r: Ratio<u32>)
        ensures
            r@ == Fraction::integer(n as int),
    {
        Ratio::from_integer(n as u32)
    }
}

impl FromSpecImpl<u8> for Ratio<u32> {
    open spec fn obeys_from_spec() -> bool {
        false
    }

    open spec fn from_spec(n: u8) -> Ratio<u32> {
        arbitrary()
    }
}

impl From<u16> for Ratio<u32> {
    /// The ratio `n / 1`.
    fn from(n: u16) -> (r: Ratio<u32>)
        ensures
            r@ == Fraction::integer(n as int),
    {
        Ratio::from_integer(n as u32)
    }
}

impl FromSpecImpl<u16> for Ratio<u32> {
    open spec fn obeys_from_spec() -> bool {
        false
    }

    open spec fn from_spec(n: u16) -> Ratio<u32> {
        arbitrary()
    }
}

impl From<u8> for Ratio<i32> {
    /// The ratio `n / 1`.
    fn from(n: u8) -> (r: Ratio<i32>)
        ensures
            r@ == Fraction::integer(n as int),
    {
        Ratio::from_integer(n as i32)
    }
}

impl FromSpecImpl<u8> for Ratio<i32> {
    open spec fn obeys_from_spec() -> bool {
        false
    }

    open spec fn from_spec(n: u8) -> Ratio<i32> {
        arbitrary()
    }
}

impl From<i8> for Ratio<i32> {
    /// The ratio `n / 1`.
    fn from(n: i8) -> (r: Ratio<i32>)
        ensures
            r@ == Fraction::integer(n as int),
    {
        Ratio::from_integer(n as i32)
    }
}

impl FromSpecImpl<i8> for Ratio<i32> {
    open spec fn obeys_from_spec() -> bool {
        false
    }

    open spec fn from_spec(n: i8) -> Ratio<i32> {
        arbitrary()
    }
}

impl From<u16> for Ratio<i32> {
    /// The ratio `n / 1`.
    fn from(n: u16) -> (r: Ratio<i32>)
        ensures
            r@ == Fraction::integer(n as int),
    {
        Ratio::from_integer(n as i32)
    }
}

impl FromSpecImpl<u16> for Ratio<i32> {
    open spec fn obeys_from_spec() -> bool {
        false
    }

    open spec fn from_spec(n: u16) -> Ratio<i32> {
        arbitrary()
    }
}

impl From<i16> for Ratio<i32> {
    /// The ratio `n / 1`.
    fn from(n: i16) -> (r: Ratio<i32>)
        ensures
            r@ == Fraction::integer(n as int),
    {
        Ratio::from_integer(n as i32)
    }
}

impl FromSpecImpl<i16> for Ratio<i32> {
    open spec fn obeys_from_spec() -> bool {
        false
    }

    open spec fn from_spec(n: i16) -> Ratio<i32> {
        arbitrary()
    }
}

impl From<u8> for Ratio<u16> {
    /// The ratio `n / 1`.
    fn from(n: u8) -> (r: Ratio<u16>)
        ensures
            r@ == Fraction::integer(n as int),
    {
        Ratio::from_integer(n as u16)
    }
}

impl FromSpecImpl<u8> for Ratio<u16> {
    open spec fn obeys_from_spec() -> bool {
        false
    }

    open spec fn from_spec(n: u8) -> Ratio<u16> {
        arbitrary()
    }
}

impl From<u8> for Ratio<i16> {
    /// The ratio `n / 1`.
    fn from(n: u8) -> (r: Ratio<i16>)
        ensures
            r@ == Fraction::integer(n as int),
    {
        Ratio::from_integer(n as i16)
    }
}

impl FromSpecImpl<u8> for Ratio<i16> {
    open spec fn obeys_from_spec() -> bool {
        false
    }

    open spec fn from_spec(n: u8) -> Ratio<i16> {
        arbitrary()
    }
}

impl From<i8> for Ratio<i16> {
    /// The ratio `n / 1`.
    fn from(n: i8) -> (r: Ratio<i16>)
        ensures
            r@ == Fraction::integer(n as int),
    {
        Ratio::from_integer(n as i16)
    }
}

impl FromSpecImpl<i8> for Ratio<i16> {
    open spec fn obeys_from_spec() -> bool {
        false
    }

    open spec fn from_spec(n: i8) -> Ratio<i16> {
        arbitrary()
    }
}

impl TryFrom<i8> for Ratio<u8> {
    type Error = ();

    /// The ratio `n / 1`, where `u8` holds `n`.
    fn try_from(n: i8) -> (r: Result<Ratio<u8>, ()>)
        ensures
            r is Ok <==> u8::fits(n as int),
            r matches Ok(v) ==> v@ == Fraction::integer(n as int),
    {
        match Ratio::<u8>::from_i128(n as i128) {
            Some(v) => Ok(v),
            None => Err(()),
        }
    }
}

impl TryFromSpecImpl<i8> for Ratio<u8> {
    open spec fn obeys_try_from_spec() -> bool {
        false
    }

    open spec fn try_from_spec(n: i8) -> Result<Ratio<u8>, ()> {
        arbitrary()
    }
}

impl TryFrom<u16> for Ratio<u8> {
    type Error = ();

    /// The ratio `n / 1`, where `u8` holds `n`.
    fn try_from(n: u16) -> (r: Result<Ratio<u8>, ()>)
        ensures
            r is Ok <==> u8::fits(n as int),
            r matches Ok(v) ==> v@ == Fraction::integer(n as int),
    {
        match Ratio::<u8>::from_u128(n as u128) {
            Some(v) => Ok(v),
            None => Err(()),
        }
    }
}

impl TryFromSpecImpl<u16> for Ratio<u8> {
    open spec fn obeys_try_from_spec() -> bool {
        false
    }

    open spec fn try_from_spec(n: u16) -> Result<Ratio<u8>, ()> {
        arbitrary()
    }
}

impl TryFrom<i16> for Ratio<u8> {
    type Error = ();

    /// The ratio `n / 1`, where `u8` holds `n`.
    fn try_from(n: i16) -> (r: Result<Ratio<u8>, ()>)
        ensures
            r is Ok <==> u8::fits(n as int),
            r matches Ok(v) ==> v@ == Fraction::integer(n as int),
    {
        match Ratio::<u8>::from_i128(n as i128) {
            Some(v) => Ok(v),
            None => Err(()),
        }
    }
}

impl TryFromSpecImpl<i16> for Ratio<u8> {
    open spec fn obeys_try_from_spec() -> bool {
        false
    }

    open spec fn try_from_spec(n: i16) -> Result<Ratio<u8>, ()> {
        arbitrary()
    }
}

impl TryFrom<u32> for Ratio<u8> {
    type Error = ();

    /// The ratio `n / 1`, where `u8` holds `n`.
    fn try_from(n: u32) -> (r: Result<Ratio<u8>, ()>)
        ensures
            r is Ok <==> u8::fits(n as int),
            r matches Ok(v) ==> v@ == Fraction::integer(n as int),
    {
        match Ratio::<u8>::from_u128(n as u128) {
            Some(v) => Ok(v),
            None => Err(()),
        }
    }
}

impl TryFromSpecImpl<u32> for Ratio<u8> {
    open spec fn obeys_try_from_spec() -> bool {
        false
    }

    open spec fn try_from_spec(n: u32) -> Result<Ratio<u8>, ()> {
        arbitrary()
    }
}

impl TryFrom<i32> for Ratio<u8> {
    type Error = ();

    /// The ratio `n / 1`, where `u8` holds `n`.
    fn try_from(n: i32) -> (r: Result<Ratio<u8>, ()>)
        ensures
            r is Ok <==> u8::fits(n as int),
            r matches Ok(v) ==> v@ == Fraction::integer(n as int),
    {
        match Ratio::<u8>::from_i128(n as i128) {
            Some(v) => Ok(v),
            None => Err(()),
        }
    }
}

impl TryFromSpecImpl<i32> for Ratio<u8> {
    open spec fn obeys_try_from_spec() -> bool {
        false
    }

    open spec fn try_from_spec(n: i32) -> Result<Ratio<u8>, ()> {
        arbitrary()
    }
}

impl TryFrom<u64> for Ratio<u8> {
    type Error = ();

    /// The ratio `n / 1`, where `u8` holds `n`.
    fn try_from(n: u64) -> (r: Result<Ratio<u8>, ()>)
        ensures
            r is Ok <==> u8::fits(n as int),
            r matches Ok(v) ==> v@ == Fraction::integer(n as int),
    {
        match Ratio::<u8>::from_u128(n as u128) {
            Some(v) => Ok(v),
            None => Err(()),
        }
    }
}

impl TryFromSpecImpl<u64> for Ratio<u8> {
    open spec fn obeys_try_from_spec() -> bool {
        false
    }

    open spec fn try_from_spec(n: u64) -> Result<Ratio<u8>, ()> {
        arbitrary()
    }
}

impl TryFrom<i64> for Ratio<u8> {
    type Error = ();

    /// The ratio `n / 1`, where `u8` holds `n`.
    fn try_from(n: i64) -> (r: Result<Ratio<u8>, ()>)
        ensures
            r is Ok <==> u8::fits(n as int),
            r matches Ok(v) ==> v@ == Fraction::integer(n as int),
    {
        match Ratio::<u8>::from_i128(n as i128) {
            Some(v) => Ok(v),
            None => Err(()),
        }
    }
}

impl TryFromSpecImpl<i64> for Ratio<u8> {
    open spec fn obeys_try_from_spec() -> bool {
        false
    }

    open spec fn try_from_spec(n: i64) -> Result<Ratio<u8>, ()> {
        arbitrary()
    }
}

impl TryFrom<u128> for Ratio<u8> {
    type Error = ();

    /// The ratio `n / 1`, where `u8` holds `n`.
    fn try_from(n: u128) -> (r: Result<Ratio<u8>, ()>)
        ensures
            r is Ok <==> u8::fits(n as int),
            r matches Ok(v) ==> v@ == Fraction::integer(n as int),
    {
        match Ratio::<u8>::from_u128(n) {
            Some(v) => Ok(v),
            None => Err(()),
        }
    }
}

impl TryFromSpecImpl<u128> for Ratio<u8> {
    open spec fn obeys_try_from_spec() -> bool {
        false
    }

    open spec fn try_from_spec(n: u128) -> Result<Ratio<u8>, ()> {
        arbitrary()
    }
}

impl TryFrom<i128> for Ratio<u8> {
    type Error = ();

    /// The ratio `n / 1`, where `u8` holds `n`.
    fn try_from(n: i128) -> (r: Result<Ratio<u8>, ()>)
        ensures
            r is Ok <==> u8::fits(n as int),
            r matches Ok(v) ==> v@ == Fraction::integer(n as int),
    {
        match Ratio::<u8>::from_i128(n) {
            Some(v) => Ok(v),
            None => Err(()),
        }
    }
}

impl TryFromSpecImpl<i128> for Ratio<u8> {
    open spec fn obeys_try_from_spec() -> bool {
        false
    }

    open spec fn try_from_spec(n: i128) -> Result<Ratio<u8>, ()> {
        arbitrary()
    }
}

impl TryFrom<u8> for Ratio<i8> {
    type Error = ();

    /// The ratio `n / 1`, where `i8` holds `n`.
    fn try_from(n: u8) -> (r: Result<Ratio<i8>, ()>)
        ensures
            r is Ok <==> i8::fits(n as int),
            r matches Ok(v) ==> v@ == Fraction::integer(n as int),
    {
        match Ratio::<i8>::from_u128(n as u128) {
            Some(v) => Ok(v),
            None => Err(()),
        }
    }
}

impl TryFromSpecImpl<u8> for Ratio<i8> {
    open spec fn obeys_try_from_spec() -> bool {
        false
    }

    open spec fn try_from_spec(n: u8) -> Result<Ratio<i8>, ()> {
        arbitrary()
    }
}

impl TryFrom<u16> for Ratio<i8> {
    type Error = ();

    /// The ratio `n / 1`, where `i8` holds `n`.
    fn try_from(n: u16) -> (r: Result<Ratio<i8>, ()>)
        ensures
            r is Ok <==> i8::fits(n as int),
            r matches Ok(v) ==> v@ == Fraction::integer(n as int),
    {
        match Ratio::<i8>::from_u128(n as u128) {
            Some(v) => Ok(v),
            None => Err(()),
        }
    }
}

impl TryFromSpecImpl<u16> for Ratio<i8> {
    open spec fn obeys_try_from_spec() -> bool {
        false
    }

    open spec fn try_from_spec(n: u16) -> Result<Ratio<i8>, ()> {
        arbitrary()
    }
}

impl TryFrom<i16> for Ratio<i8> {
    type Error = ();

    /// The ratio `n / 1`, where `i8` holds `n`.
    fn try_from(n: i16) -> (r: Result<Ratio<i8>, ()>)
        ensures
            r is Ok <==> i8::fits(n as int),
            r matches Ok(v) ==> v@ == Fraction::integer(n as int),
    {
        match Ratio::<i8>::from_i128(n as i128) {
            Some(v) => Ok(v),
            None => Err(()),
        }
    }
}

impl TryFromSpecImpl<i16> for Ratio<i8> {
    open spec fn obeys_try_from_spec() -> bool {
        false
    }

    open spec fn try_from_spec(n: i16) -> Result<Ratio<i8>, ()> {
        arbitrary()
    }
}

impl TryFrom<u32> for Ratio<i8> {
    type Error = ();

    /// The ratio `n / 1`, where `i8` holds `n`.
    fn try_from(n: u32) -> (r: Result<Ratio<i8>, ()>)
        ensures
            r is Ok <==> i8::fits(n as int),
            r matches Ok(v) ==> v@ == Fraction::integer(n as int),
    {
        match Ratio::<i8>::from_u128(n as u128) {
            Some(v) => Ok(v),
            None => Err(()),
        }
    }
}

impl TryFromSpecImpl<u32> for Ratio<i8> {
    open spec fn obeys_try_from_spec() -> bool {
        false
    }

    open spec fn try_from_spec(n: u32) -> Result<Ratio<i8>, ()> {
        arbitrary()
    }
}

impl TryFrom<i32> for Ratio<i8> {
    type Error = ();

    /// The ratio `n / 1`, where `i8` holds `n`.
    fn try_from(n: i32) -> (r: Result<Ratio<i8>, ()>)
        ensures
            r is Ok <==> i8::fits(n as int),
            r matches Ok(v) ==> v@ == Fraction::integer(n as int),
    {
        match Ratio::<i8>::from_i128(n as i128) {
            Some(v) => Ok(v),
            None => Err(()),
        }
    }
}

impl TryFromSpecImpl<i32> for Ratio<i8> {
    open spec fn obeys_try_from_spec() -> bool {
        false
    }

    open spec fn try_from_spec(n: i32) -> Result<Ratio<i8>, ()> {
        arbitrary()
    }
}

impl TryFrom<u64> for Ratio<i8> {
    type Error = ();

    /// The ratio `n / 1`, where `i8` holds `n`.
    fn try_from(n: u64) -> (r: Result<Ratio<i8>, ()>)
        ensures
            r is Ok <==> i8::fits(n as int),
            r matches Ok(v) ==> v@ == Fraction::integer(n as int),
    {
        match Ratio::<i8>::from_u128(n as u128) {
            Some(v) => Ok(v),
            None => Err(()),
        }
    }
}

impl TryFromSpecImpl<u64> for Ratio<i8> {
    open spec fn obeys_try_from_spec() -> bool {
        false
    }

    open spec fn try_from_spec(n: u64) -> Result<Ratio<i8>, ()> {
        arbitrary()
    }
}

impl TryFrom<i64> for Ratio<i8> {
    type Error = ();

    /// The ratio `n / 1`, where `i8` holds `n`.
    fn try_from(n: i64) -> (r: Result<Ratio<i8>, ()>)
        ensures
            r is Ok <==> i8::fits(n as int),
            r matches Ok(v) ==> v@ == Fraction::integer(n as int),
    {
        match Ratio::<i8>::from_i128(n as i128) {
            Some(v) => Ok(v),
            None => Err(()),
        }
    }
}

impl TryFromSpecImpl<i64> for Ratio<i8> {
    open spec fn obeys_try_from_spec() -> bool {
        false
    }

    open spec fn try_from_spec(n: i64) -> Result<Ratio<i8>, ()> {
        arbitrary()
    }
}

impl TryFrom<u128> for Ratio<i8> {
    type Error = ();

    /// The ratio `n / 1`, where `i8` holds `n`.
    fn try_from(n: u128) -> (r: Result<Ratio<i8>, ()>)
        ensures
            r is Ok <==> i8::fits(n as int),
            r matches Ok(v) ==> v@ == Fraction::integer(n as int),
    {
        match Ratio::<i8>::from_u128(n) {
            Some(v) => Ok(v),
            None => Err(()),
        }
    }
}

impl TryFromSpecImpl<u128> for Ratio<i8> {
    open spec fn obeys_try_from_spec() -> bool {
        false
    }

    open spec fn try_from_spec(n: u128) -> Result<Ratio<i8>, ()> {
        arbitrary()
    }
}

impl TryFrom<i128> for Ratio<i8> {
    type Error = ();

    /// The ratio `n / 1`, where `i8` holds `n`.
    fn try_from(n: i128) -> (r: Result<Ratio<i8>, ()>)
        ensures
            r is Ok <==> i8::fits(n as int),
            r matches Ok(v) ==> v@ == Fraction::integer(n as int),
    {
        match Ratio::<i8>::from_i128(n) {
            Some(v) => Ok(v),
            None => Err(()),
        }
    }
}

impl TryFromSpecImpl<i128> for Ratio<i8> {
    open spec fn obeys_try_from_spec() -> bool {
        false
    }

    open spec fn try_from_spec(n: i128) -> Result<Ratio<i8>, ()> {
        arbitrary()
    }
}

impl TryFrom<i16> for Ratio<u16> {
    type Error = ();

    /// The ratio `n / 1`, where `u16` holds `n`.
    fn try_from(n: i16) -> (r: Result<Ratio<u16>, ()>)
        ensures
            r is Ok <==> u16::fits(n as int),
            r matches Ok(v) ==> v@ == Fraction::integer(n as int),
    {
        match Ratio::<u16>::from_i128(n as i128) {
            Some(v) => Ok(v),
            None => Err(()),
        }
    }
}

impl TryFromSpecImpl<i16> for Ratio<u16> {
    open spec fn obeys_try_from_spec() -> bool {
        false
    }

    open spec fn try_from_spec(n: i16) -> Result<Ratio<u16>, ()> {
        arbitrary()
    }
}

impl TryFrom<u32> for Ratio<u16> {
    type Error = ();

    /// The ratio `n / 1`, where `u16` holds `n`.
    fn try_from(n: u32) -> (r: Result<Ratio<u16>, ()>)
        ensures
            r is Ok <==> u16::fits(n as int),
            r matches Ok(v) ==> v@ == Fraction::integer(n as int),
    {
        match Ratio::<u16>::from_u128(n as u128) {
            Some(v) => Ok(v),
            None => Err(()),
        }
    }
}

impl TryFromSpecImpl<u32> for Ratio<u16> {
    open spec fn obeys_try_from_spec() -> bool {
        false
    }

    open spec fn try_from_spec(n: u32) -> Result<Ratio<u16>, ()> {
        arbitrary()
    }
}

impl TryFrom<i32> for Ratio<u16> {
    type Error = ();

    /// The ratio `n / 1`, where `u16` holds `n`.
    fn try_from(n: i32) -> (r: Result<Ratio<u16>, ()>)
        ensures
            r is Ok <==> u16::fits(n as int),
            r matches Ok(v) ==> v@ == Fraction::integer(n as int),
    {
        match Ratio::<u16>::from_i128(n as i128) {
            Some(v) => Ok(v),
            None => Err(()),
        }
    }
}

impl TryFromSpecImpl<i32> for Ratio<u16> {
    open spec fn obeys_try_from_spec() -> bool {
        false
    }

    open spec fn try_from_spec(n: i32) -> Result<Ratio<u16>, ()> {
        arbitrary()
    }
}

impl TryFrom<u64> for Ratio<u16> {
    type Error = ();

    /// The ratio `n / 1`, where `u16` holds `n`.
    fn try_from(n: u64) -> (r: Result<Ratio<u16>, ()>)
        ensures
            r is Ok <==> u16::fits(n as int),
            r matches Ok(v) ==> v@ == Fraction::integer(n as int),
    {
        match Ratio::<u16>::from_u128(n as u128) {
            Some(v) => Ok(v),
            None => Err(()),
        }
    }
}

impl TryFromSpecImpl<u64> for Ratio<u16> {
    open spec fn obeys_try_from_spec() -> bool {
        false
    }

    open spec fn try_from_spec(n: u64) -> Result<Ratio<u16>, ()> {
        arbitrary()
    }
}

impl TryFrom<i64> for Ratio<u16> {
    type Error = ();

    /// The ratio `n / 1`, where `u16` holds `n`.
    fn try_from(n: i64) -> (r: Result<Ratio<u16>, ()>)
        ensures
            r is Ok <==> u16::fits(n as int),
            r matches Ok(v) ==> v@ == Fraction::integer(n as int),
    {
        match Ratio::<u16>::from_i128(n as i128) {
            Some(v) => Ok(v),
            None => Err(()),
        }
    }
}

impl TryFromSpecImpl<i64> for Ratio<u16> {
    open spec fn obeys_try_from_spec() -> bool {
        false
    }

    open spec fn try_from_spec(n: i64) -> Result<Ratio<u16>, ()> {
        arbitrary()
    }
}

impl TryFrom<u128> for Ratio<u16> {
    type Error = ();

    /// The ratio `n / 1`, where `u16` holds `n`.
    fn try_from(n: u128) -> (r: Result<Ratio<u16>, ()>)
        ensures
            r is Ok <==> u16::fits(n as int),
            r matches Ok(v) ==> v@ == Fraction::integer(n as int),
    {
        match Ratio::<u16>::from_u128(n) {
            Some(v) => Ok(v),
            None => Err(()),
        }
    }
}

impl TryFromSpecImpl<u128> for Ratio<u16> {
    open spec fn obeys_try_from_spec() -> bool {
        false
    }

    open spec fn try_from_spec(n: u128) -> Result<Ratio<u16>, ()> {
        arbitrary()
    }
}

impl TryFrom<i128> for Ratio<u16> {
    type Error = ();

    /// The ratio `n / 1`, where `u16` holds `n`.
    fn try_from(n: i128) -> (r: Result<Ratio<u16>, ()>)
        ensures
            r is Ok <==> u16::fits(n as int),
            r matches Ok(v) ==> v@ == Fraction::integer(n as int),
    {
        match Ratio::<u16>::from_i128(n) {
            Some(v) => Ok(v),
            None => Err(()),
        }
    }
}

impl TryFromSpecImpl<i128> for Ratio<u16> {
    open spec fn obeys_try_from_spec() -> bool {
        false
    }

    open spec fn try_from_spec(n: i128) -> Result<Ratio<u16>, ()> {
        arbitrary()
    }
}

impl TryFrom<u16> for Ratio<i16> {
    type Error = ();

    /// The ratio `n / 1`, where `i16` holds `n`.
    fn try_from(n: u16) -> (r: Result<Ratio<i16>, ()>)
        ensures
            r is Ok <==> i16::fits(n as int),
            r matches Ok(v) ==> v@ == Fraction::integer(n as int),
    {
        match Ratio::<i16>::from_u128(n as u128) {
            Some(v) => Ok(v),
            None => Err(()),
        }
    }
}

impl TryFromSpecImpl<u16> for Ratio<i16> {
    open spec fn obeys_try_from_spec() -> bool {
        false
    }

    open spec fn try_from_spec(n: u16) -> Result<Ratio<i16>, ()> {
        arbitrary()
    }
}

impl TryFrom<u32> for Ratio<i16> {
    type Error = ();

    /// The ratio `n / 1`, where `i16` holds `n`.
    fn try_from(n: u32) -> (r: Result<Ratio<i16>, ()>)
        ensures
            r is Ok <==> i16::fits(n as int),
            r matches Ok(v) ==> v@ == Fraction::integer(n as int),
    {
        match Ratio::<i16>::from_u128(n as u128) {
            Some(v) => Ok(v),
            None => Err(()),
        }
    }
}

impl TryFromSpecImpl<u32> for Ratio<i16> {
    open spec fn obeys_try_from_spec() -> bool {
        false
    }

    open spec fn try_from_spec(n: u32) -> Result<Ratio<i16>, ()> {
        arbitrary()
    }
}

impl TryFrom<i32> for Ratio<i16> {
    type Error = ();

    /// The ratio `n / 1`, where `i16` holds `n`.
    fn try_from(n: i32) -> (r: Result<Ratio<i16>, ()>)
        ensures
            r is Ok <==> i16::fits(n as int),
            r matches Ok(v) ==> v@ == Fraction::integer(n as int),
    {
        match Ratio::<i16>::from_i128(n as i128) {
            Some(v) => Ok(v),
            None => Err(()),
        }
    }
}

impl TryFromSpecImpl<i32> for Ratio<i16> {
    open spec fn obeys_try_from_spec() -> bool {
        false
    }

    open spec fn try_from_spec(n: i32) -> Result<Ratio<i16>, ()> {
        arbitrary()
    }
}

impl TryFrom<u64> for Ratio<i16> {
    type Error = ();

    /// The ratio `n / 1`, where `i16` holds `n`.
    fn try_from(n: u64) -> (r: Result<Ratio<i16>, ()>)
        ensures
            r is Ok <==> i16::fits(n as int),
            r matches Ok(v) ==> v@ == Fraction::integer(n as int),
    {
        match Ratio::<i16>::from_u128(n as u128) {
            Some(v) => Ok(v),
            None => Err(()),
        }
    }
}

impl TryFromSpecImpl<u64> for Ratio<i16> {
    open spec fn obeys_try_from_spec() -> bool {
        false
    }

    open spec fn try_from_spec(n: u64) -> Result<Ratio<i16>, ()> {
        arbitrary()
    }
}

impl TryFrom<i64> for Ratio<i16> {
    type Error = ();

    /// The ratio `n / 1`, where `i16` holds `n`.
    fn try_from(n: i64) -> (r: Result<Ratio<i16>, ()>)
        ensures
            r is Ok <==> i16::fits(n as int),
            r matches Ok(v) ==> v@ == Fraction::integer(n as int),
    {
        match Ratio::<i16>::from_i128(n as i128) {
            Some(v) => Ok(v),
            None => Err(()),
        }
    }
}

impl TryFromSpecImpl<i64> for Ratio<i16> {
    open spec fn obeys_try_from_spec() -> bool {
        false
    }

    open spec fn try_from_spec(n: i64) -> Result<Ratio<i16>, ()> {
        arbitrary()
    }
}

impl TryFrom<u128> for Ratio<i16> {
    type Error = ();

    /// The ratio `n / 1`, where `i16` holds `n`.
    fn try_from(n: u128) -> (r: Result<Ratio<i16>, ()>)
        ensures
            r is Ok <==> i16::fits(n as int),
            r matches Ok(v) ==> v@ == Fraction::integer(n as int),
    {
        match Ratio::<i16>::from_u128(n) {
            Some(v) => Ok(v),
            None => Err(()),
        }
    }
}

impl TryFromSpecImpl<u128> for Ratio<i16> {
    open spec fn obeys_try_from_spec() -> bool {
        false
    }

    open spec fn try_from_spec(n: u128) -> Result<Ratio<i16>, ()> {
        arbitrary()
    }
}

impl TryFrom<i128> for Ratio<i16> {
    type Error = ();

    /// The ratio `n / 1`, where `i16` holds `n`.
    fn try_from(n: i128) -> (r: Result<Ratio<i16>, ()>)
        ensures
            r is Ok <==> i16::fits(n as int),
            r matches Ok(v) ==> v@ == Fraction::integer(n as int),
    {
        match Ratio::<i16>::from_i128(n) {
            Some(v) => Ok(v),
            None => Err(()),
        }
    }
}

impl TryFromSpecImpl<i128> for Ratio<i16> {
    open spec fn obeys_try_from_spec() -> bool {
        false
    }

    open spec fn try_from_spec(n: i128) -> Result<Ratio<i16>, ()> {
        arbitrary()
    }
}

impl TryFrom<i32> for Ratio<u32> {
    type Error = ();

    /// The ratio `n / 1`, where `u32` holds `n`.
    fn try_from(n: i32) -> (r: Result<Ratio<u32>, ()>)
        ensures
            r is Ok <==> u32::fits(n as int),
            r matches Ok(v) ==> v@ == Fraction::integer(n as int),
    {
        match Ratio::<u32>::from_i128(n as i128) {
            Some(v) => Ok(v),
            None => Err(()),
        }
    }
}

impl TryFromSpecImpl<i32> for Ratio<u32> {
    open spec fn obeys_try_from_spec() -> bool {
        false
    }

    open spec fn try_from_spec(n: i32) -> Result<Ratio<u32>, ()> {
        arbitrary()
    }
}

impl TryFrom<u64> for Ratio<u32> {
    type Error = ();

    /// The ratio `n / 1`, where `u32` holds `n`.
    fn try_from(n: u64) -> (r: Result<Ratio<u32>, ()>)
        ensures
            r is Ok <==> u32::fits(n as int),
            r matches Ok(v) ==> v@ == Fraction::integer(n as int),
    {
        match Ratio::<u32>::from_u128(n as u128) {
            Some(v) => Ok(v),
            None => Err(()),
        }
    }
}

impl TryFromSpecImpl<u64> for Ratio<u32> {
    open spec fn obeys_try_from_spec() -> bool {
        false
    }

    open spec fn try_from_spec(n: u64) -> Result<Ratio<u32>, ()> {
        arbitrary()
    }
}

impl TryFrom<i64> for Ratio<u32> {
    type Error = ();

    /// The ratio `n / 1`, where `u32` holds `n`.
    fn try_from(n: i64) -> (r: Result<Ratio<u32>, ()>)
        ensures
            r is Ok <==> u32::fits(n as int),
            r matches Ok(v) ==> v@ == Fraction::integer(n as int),
    {
        match Ratio::<u32>::from_i128(n as i128) {
            Some(v) => Ok(v),
            None => Err(()),
        }
    }
}

impl TryFromSpecImpl<i64> for Ratio<u32> {
    open spec fn obeys_try_from_spec() -> bool {
        false
    }

    open spec fn try_from_spec(n: i64) -> Result<Ratio<u32>, ()> {
        arbitrary()
    }
}

impl TryFrom<u128> for Ratio<u32> {
    type Error = ();

    /// The ratio `n / 1`, where `u32` holds `n`.
    fn try_from(n: u128) -> (r: Result<Ratio<u32>, ()>)
        ensures
            r is Ok <==> u32::fits(n as int),
            r matches Ok(v) ==> v@ == Fraction::integer(n as int),
    {
        match Ratio::<u32>::from_u128(n) {
            Some(v) => Ok(v),
            None => Err(()),
        }
    }
}

impl TryFromSpecImpl<u128> for Ratio<u32> {
    open spec fn obeys_try_from_spec() -> bool {
        false
    }

    open spec fn try_from_spec(n: u128) -> Result<Ratio<u32>, ()> {
        arbitrary()
    }
}

impl TryFrom<i128> for Ratio<u32> {
    type Error = ();

    /// The ratio `n / 1`, where `u32` holds `n`.
    fn try_from(n: i128) -> (r: Result<Ratio<u32>, ()>)
        ensures
            r is Ok <==> u32::fits(n as int),
            r matches Ok(v) ==> v@ == Fraction::integer(n as int),
    {
        match Ratio::<u32>::from_i128(n) {
            Some(v) => Ok(v),
            None => Err(()),
        }
    }
}

impl TryFromSpecImpl<i128> for Ratio<u32> {
    open spec fn obeys_try_from_spec() -> bool {
        false
    }

    open spec fn try_from_spec(n: i128) -> Result<Ratio<u32>, ()> {
        arbitrary()
    }
}

impl TryFrom<u32> for Ratio<i32> {
    type Error = ();

    /// The ratio `n / 1`, where `i32` holds `n`.
    fn try_from(n: u32) -> (r: Result<Ratio<i32>, ()>)
        ensures
            r is Ok <==> i32::fits(n as int),
            r matches Ok(v) ==> v@ == Fraction::integer(n as int),
    {
        match Ratio::<i32>::from_u128(n as u128) {
            Some(v) => Ok(v),
            None => Err(()),
        }
    }
}

impl TryFromSpecImpl<u32> for Ratio<i32> {
    open spec fn obeys_try_from_spec() -> bool {
        false
    }

    open spec fn try_from_spec(n: u32) -> Result<Ratio<i32>, ()> {
        arbitrary()
    }
}

impl TryFrom<u64> for Ratio<i32> {
    type Error = ();

    /// The ratio `n / 1`, where `i32` holds `n`.
    fn try_from(n: u64) -> (r: Result<Ratio<i32>, ()>)
        ensures
            r is Ok <==> i32::fits(n as int),
            r matches Ok(v) ==> v@ == Fraction::integer(n as int),
    {
        match Ratio::<i32>::from_u128(n as u128) {
            Some(v) => Ok(v),
            None => Err(()),
        }
    }
}

impl TryFromSpecImpl<u64> for Ratio<i32> {
    open spec fn obeys_try_from_spec() -> bool {
        false
    }

    open spec fn try_from_spec(n: u64) -> Result<Ratio<i32>, ()> {
        arbitrary()
    }
}

impl TryFrom<i64> for Ratio<i32> {
    type Error = ();

    /// The ratio `n / 1`, where `i32` holds `n`.
    fn try_from(n: i64) -> (r: Result<Ratio<i32>, ()>)
        ensures
            r is Ok <==> i32::fits(n as int),
            r matches Ok(v) ==> v@ == Fraction::integer(n as int),
    {
        match Ratio::<i32>::from_i128(n as i128) {
            Some(v) => Ok(v),
            None => Err(()),
        }
    }
}

impl TryFromSpecImpl<i64> for Ratio<i32> {
    open spec fn obeys_try_from_spec() -> bool {
        false
    }

    open spec fn try_from_spec(n: i64) -> Result<Ratio<i32>, ()> {
        arbitrary()
    }
}

impl TryFrom<u128> for Ratio<i32> {
    type Error = ();

    /// The ratio `n / 1`, where `i32` holds `n`.
    fn try_from(n: u128) -> (r: Result<Ratio<i32>, ()>)
        ensures
            r is Ok <==> i32::fits(n as int),
            r matches Ok(v) ==> v@ == Fraction::integer(n as int),
    {
        match Ratio::<i32>::from_u128(n) {
            Some(v) => Ok(v),
            None => Err(()),
        }
    }
}

impl TryFromSpecImpl<u128> for Ratio<i32> {
    open spec fn obeys_try_from_spec() -> bool {
        false
    }

    open spec fn try_from_spec(n: u128) -> Result<Ratio<i32>, ()> {
        arbitrary()
    }
}

impl TryFrom<i128> for Ratio<i32> {
    type Error = ();

    /// The ratio `n / 1`, where `i32` holds `n`.
    fn try_from(n: i128) -> (r: Result<Ratio<i32>, ()>)
        ensures
            r is Ok <==> i32::fits(n as int),
            r matches Ok(v) ==> v@ == Fraction::integer(n as int),
    {
        match Ratio::<i32>::from_i128(n) {
            Some(v) => Ok(v),
            None => Err(()),
        }
    }
}

impl TryFromSpecImpl<i128> for Ratio<i32> {
    open spec fn obeys_try_from_spec() -> bool {
        false
    }

    open spec fn try_from_spec(n: i128) -> Result<Ratio<i32>, ()> {
        arbitrary()
    }
}

impl TryFrom<i64> for Ratio<u64> {
    type Error = ();

    /// The ratio `n / 1`, where `u64` holds `n`.
    fn try_from(n: i64) -> (r: Result<Ratio<u64>, ()>)
        ensures
            r is Ok <==> u64::fits(n as int),
            r matches Ok(v) ==> v@ == Fraction::integer(n as int),
    {
        match Ratio::<u64>::from_i128(n as i128) {
            Some(v) => Ok(v),
            None => Err(()),
        }
    }
}

impl TryFromSpecImpl<i64> for Ratio<u64> {
    open spec fn obeys_try_from_spec() -> bool {
        false
    }

    open spec fn try_from_spec(n: i64) -> Result<Ratio<u64>, ()> {
        arbitrary()
    }
}

impl TryFrom<u128> for Ratio<u64> {
    type Error = ();

    /// The ratio `n / 1`, where `u64` holds `n`.
    fn try_from(n: u128) -> (r: Result<Ratio<u64>, ()>)
        ensures
            r is Ok <==> u64::fits(n as int),
            r matches Ok(v) ==> v@ == Fraction::integer(n as int),
    {
        match Ratio::<u64>::from_u128(n) {
            Some(v) => Ok(v),
            None => Err(()),
        }
    }
}

impl TryFromSpecImpl<u128> for Ratio<u64> {
    open spec fn obeys_try_from_spec() -> bool {
        false
    }

    open spec fn try_from_spec(n: u128) -> Result<Ratio<u64>, ()> {
        arbitrary()
    }
}

impl TryFrom<i128> for Ratio<u64> {
    type Error = ();

    /// The ratio `n / 1`, where `u64` holds `n`.
    fn try_from(n: i128) -> (r: Result<Ratio<u64>, ()>)
        ensures
            r is Ok <==> u64::fits(n as int),
            r matches Ok(v) ==> v@ == Fraction::integer(n as int),
    {
        match Ratio::<u64>::from_i128(n) {
            Some(v) => Ok(v),
            None => Err(()),
        }
    }
}

impl TryFromSpecImpl<i128> for Ratio<u64> {
    open spec fn obeys_try_from_spec() -> bool {
        false
    }

    open spec fn try_from_spec(n: i128) -> Result<Ratio<u64>, ()> {
        arbitrary()
    }
}

impl TryFrom<u64> for Ratio<i64> {
    type Error = ();

    /// The ratio `n / 1`, where `i64` holds `n`.
    fn try_from(n: u64) -> (r: Result<Ratio<i64>, ()>)
        ensures
            r is Ok <==> i64::fits(n as int),
            r matches Ok(v) ==> v@ == Fraction::integer(n as int),
    {
        match Ratio::<i64>::from_u128(n as u128) {
            Some(v) => Ok(v),
            None => Err(()),
        }
    }
}

impl TryFromSpecImpl<u64> for Ratio<i64> {
    open spec fn obeys_try_from_spec() -> bool {
        false
    }

    open spec fn try_from_spec(n: u64) -> Result<Ratio<i64>, ()> {
        arbitrary()
    }
}

impl TryFrom<u128> for Ratio<i64> {
    type Error = ();

    /// The ratio `n / 1`, where `i64` holds `n`.
    fn try_from(n: u128) -> (r: Result<Ratio<i64>, ()>)
        ensures
            r is Ok <==> i64::fits(n as int),
            r matches Ok(v) ==> v@ == Fraction::integer(n as int),
    {
        match Ratio::<i64>::from_u128(n) {
            Some(v) => Ok(v),
            None => Err(()),
        }
    }
}

impl TryFromSpecImpl<u128> for Ratio<i64> {
    open spec fn obeys_try_from_spec() -> bool {
        false
    }

    open spec fn try_from_spec(n: u128) -> Result<Ratio<i64>, ()> {
        arbitrary()
    }
}

impl TryFrom<i128> for Ratio<i64> {
    type Error = ();

    /// The ratio `n / 1`, where `i64` holds `n`.
    fn try_from(n: i128) -> (r: Result<Ratio<i64>, ()>)
        ensures
            r is Ok <==> i64::fits(n as int),
            r matches Ok(v) ==> v@ == Fraction::integer(n as int),
    {
        match Ratio::<i64>::from_i128(n) {
            Some(v) => Ok(v),
            None => Err(()),
        }
    }
}

impl TryFromSpecImpl<i128> for Ratio<i64> {
    open spec fn obeys_try_from_spec() -> bool {
        false
    }

    open spec fn try_from_spec(n: i128) -> Result<Ratio<i64>, ()> {
        arbitrary()
    }
}

impl TryFrom<i128> for Ratio<u128> {
    type Error = ();

    /// The ratio `n / 1`, where `u128` holds `n`.
    fn try_from(n: i128) -> (r: Result<Ratio<u128>, ()>)
        ensures
            r is Ok <==> u128::fits(n as int),
            r matches Ok(v) ==> v@ == Fraction::integer(n as int),
    {
        match Ratio::<u128>::from_i128(n) {
            Some(v) => Ok(v),
            None => Err(()),
        }
    }
}

impl TryFromSpecImpl<i128> for Ratio<u128> {
    open spec fn obeys_try_from_spec() -> bool {
        false
    }

    open spec fn try_from_spec(n: i128) -> Result<Ratio<u128>, ()> {
        arbitrary()
    }
}

impl TryFrom<u128> for Ratio<i128> {
    type Error = ();

    /// The ratio `n / 1`, where `i128` holds `n`.
    fn try_from(n: u128) -> (r: Result<Ratio<i128>, ()>)
        ensures
            r is Ok <==> i128::fits(n as int),
            r matches Ok(v) ==> v@ == Fraction::integer(n as int),
    {
        match Ratio::<i128>::from_u128(n) {
            Some(v) => Ok(v),
            None => Err(()),
        }
    }
}

impl TryFromSpecImpl<u128> for Ratio<i128> {
    open spec fn obeys_try_from_spec() -> bool {
        false
    }

    open spec fn try_from_spec(n: u128) -> Result<Ratio<i128>, ()> {
        arbitrary()
    }
}

} // verus!
