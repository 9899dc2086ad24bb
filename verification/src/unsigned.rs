//! The integer capability of the unsigned machine integers.

use vstd::prelude::*;
use crate::backing::{Arith, Backing};
use crate::euclid::{div_mod_floor_of, gcd_of, is_even_of};
use crate::math::lemma_trunc_div_bounds;
use crate::power::pow_of;
use crate::text::{decimal_of, int_text_value, lemma_decimal_round_trip, parse_int_of};

verus! {

impl Arith for u8 {
    open spec fn val(&self) -> int {
        *self as int
    }

    open spec fn fits(v: int) -> bool {
        u8::MIN <= v <= u8::MAX
    }

    proof fn lemma_val_fits(&self) {
    }

    proof fn lemma_fits_between(lo: int, mid: int, hi: int) {
    }

    proof fn lemma_fits_small() {
    }

    proof fn lemma_fits_negation(v: int) {
    }

    fn zero() -> (r: Self) {
        0
    }

    fn one() -> (r: Self) {
        1
    }

    fn from_small(n: u8) -> (r: Self) {
        n as u8
    }

    fn dup(&self) -> (r: Self) {
        *self
    }

    fn is_zero(&self) -> (r: bool) {
        *self == 0
    }

    fn same(&self, other: &Self) -> (r: bool) {
        *self == *other
    }

    fn less(&self, other: &Self) -> (r: bool) {
        *self < *other
    }

    fn plus(&self, other: &Self) -> (r: Self) {
        *self + *other
    }

    fn minus(&self, other: &Self) -> (r: Self) {
        *self - *other
    }

    fn times(&self, other: &Self) -> (r: Self) {
        *self * *other
    }

    fn div_trunc(&self, other: &Self) -> (r: Self) {
        proof {
            lemma_trunc_div_bounds(*self as int, *other as int);
        }
        *self / *other
    }

    fn rem_trunc(&self, other: &Self) -> (r: Self) {
        proof {
            lemma_trunc_div_bounds(*self as int, *other as int);
        }
        *self % *other
    }

    fn checked_plus(&self, other: &Self) -> (r: Option<Self>) {
        self.checked_add(*other)
    }

    fn checked_minus(&self, other: &Self) -> (r: Option<Self>) {
        self.checked_sub(*other)
    }

    fn checked_times(&self, other: &Self) -> (r: Option<Self>) {
        self.checked_mul(*other)
    }

    fn to_i128(&self) -> (r: Option<i128>) {
        Some(*self as i128)
    }

    fn checked_div_rem(&self, other: &Self) -> (r: Option<(Self, Self)>) {
        proof {
            lemma_trunc_div_bounds(*self as int, *other as int);
        }
        Some((*self / *other, *self % *other))
    }
}

impl Backing for u8 {
    open spec fn text_value(s: Seq<char>, radix: int) -> Option<int> {
        match int_text_value(s, radix, false) {
            Some(v) if Self::fits(v) => Some(v),
            _ => None,
        }
    }

    proof fn lemma_text_round_trip(v: int) {
        lemma_decimal_round_trip(v, false);
    }

    fn parse_radix(s: &str, radix: u32) -> (r: Option<Self>) {
        parse_int_of::<u8>(s, radix, false)
    }

    fn to_text(&self) -> (r: String) {
        decimal_of::<u8>(self)
    }

    fn gcd(&self, other: &Self) -> (r: Self) {
        gcd_of::<u8>(self, other)
    }

    fn checked_div_mod_floor(&self, other: &Self) -> (r: Option<(Self, Self)>) {
        div_mod_floor_of::<u8>(self, other)
    }

    fn is_even(&self) -> (r: bool) {
        is_even_of::<u8>(self)
    }

    fn pow(&self, exp: u32) -> (r: Self) {
        pow_of::<u8>(self, exp)
    }

    fn max_value() -> (r: Option<Self>) {
        Some(u8::MAX)
    }

    fn from_i128(n: i128) -> (r: Option<Self>) {
        if 0 <= n && n as u128 <= u8::MAX as u128 {
            Some(n as u8)
        } else {
            None
        }
    }

    fn from_u128(n: u128) -> (r: Option<Self>) {
        if n <= u8::MAX as u128 {
            Some(n as u8)
        } else {
            None
        }
    }
}

impl Arith for u16 {
    open spec fn val(&self) -> int {
        *self as int
    }

    open spec fn fits(v: int) -> bool {
        u16::MIN <= v <= u16::MAX
    }

    proof fn lemma_val_fits(&self) {
    }

    proof fn lemma_fits_between(lo: int, mid: int, hi: int) {
    }

    proof fn lemma_fits_small() {
    }

    proof fn lemma_fits_negation(v: int) {
    }

    fn zero() -> (r: Self) {
        0
    }

    fn one() -> (r: Self) {
        1
    }

    fn from_small(n: u8) -> (r: Self) {
        n as u16
    }

    fn dup(&self) -> (r: Self) {
        *self
    }

    fn is_zero(&self) -> (r: bool) {
        *self == 0
    }

    fn same(&self, other: &Self) -> (r: bool) {
        *self == *other
    }

    fn less(&self, other: &Self) -> (r: bool) {
        *self < *other
    }

    fn plus(&self, other: &Self) -> (r: Self) {
        *self + *other
    }

    fn minus(&self, other: &Self) -> (r: Self) {
        *self - *other
    }

    fn times(&self, other: &Self) -> (r: Self) {
        *self * *other
    }

    fn div_trunc(&self, other: &Self) -> (r: Self) {
        proof {
            lemma_trunc_div_bounds(*self as int, *other as int);
        }
        *self / *other
    }

    fn rem_trunc(&self, other: &Self) -> (r: Self) {
        proof {
            lemma_trunc_div_bounds(*self as int, *other as int);
        }
        *self % *other
    }

    fn checked_plus(&self, other: &Self) -> (r: Option<Self>) {
        self.checked_add(*other)
    }

    fn checked_minus(&self, other: &Self) -> (r: Option<Self>) {
        self.checked_sub(*other)
    }

    fn checked_times(&self, other: &Self) -> (r: Option<Self>) {
        self.checked_mul(*other)
    }

    fn to_i128(&self) -> (r: Option<i128>) {
        Some(*self as i128)
    }

    fn checked_div_rem(&self, other: &Self) -> (r: Option<(Self, Self)>) {
        proof {
            lemma_trunc_div_bounds(*self as int, *other as int);
        }
        Some((*self / *other, *self % *other))
    }
}

impl Backing for u16 {
    open spec fn text_value(s: Seq<char>, radix: int) -> Option<int> {
        match int_text_value(s, radix, false) {
            Some(v) if Self::fits(v) => Some(v),
            _ => None,
        }
    }

    proof fn lemma_text_round_trip(v: int) {
        lemma_decimal_round_trip(v, false);
    }

    fn parse_radix(s: &str, radix: u32) -> (r: Option<Self>) {
        parse_int_of::<u16>(s, radix, false)
    }

    fn to_text(&self) -> (r: String) {
        decimal_of::<u16>(self)
    }

    fn gcd(&self, other: &Self) -> (r: Self) {
        gcd_of::<u16>(self, other)
    }

    fn checked_div_mod_floor(&self, other: &Self) -> (r: Option<(Self, Self)>) {
        div_mod_floor_of::<u16>(self, other)
    }

    fn is_even(&self) -> (r: bool) {
        is_even_of::<u16>(self)
    }

    fn pow(&self, exp: u32) -> (r: Self) {
        pow_of::<u16>(self, exp)
    }

    fn max_value() -> (r: Option<Self>) {
        Some(u16::MAX)
    }

    fn from_i128(n: i128) -> (r: Option<Self>) {
        if 0 <= n && n as u128 <= u16::MAX as u128 {
            Some(n as u16)
        } else {
            None
        }
    }

    fn from_u128(n: u128) -> (r: Option<Self>) {
        if n <= u16::MAX as u128 {
            Some(n as u16)
        } else {
            None
        }
    }
}

impl Arith for u32 {
    open spec fn val(&self) -> int {
        *self as int
    }

    open spec fn fits(v: int) -> bool {
        u32::MIN <= v <= u32::MAX
    }

    proof fn lemma_val_fits(&self) {
    }

    proof fn lemma_fits_between(lo: int, mid: int, hi: int) {
    }

    proof fn lemma_fits_small() {
    }

    proof fn lemma_fits_negation(v: int) {
    }

    fn zero() -> (r: Self) {
        0
    }

    fn one() -> (r: Self) {
        1
    }

    fn from_small(n: u8) -> (r: Self) {
        n as u32
    }

    fn dup(&self) -> (r: Self) {
        *self
    }

    fn is_zero(&self) -> (r: bool) {
        *self == 0
    }

    fn same(&self, other: &Self) -> (r: bool) {
        *self == *other
    }

    fn less(&self, other: &Self) -> (r: bool) {
        *self < *other
    }

    fn plus(&self, other: &Self) -> (r: Self) {
        *self + *other
    }

    fn minus(&self, other: &Self) -> (r: Self) {
        *self - *other
    }

    fn times(&self, other: &Self) -> (r: Self) {
        *self * *other
    }

    fn div_trunc(&self, other: &Self) -> (r: Self) {
        proof {
            lemma_trunc_div_bounds(*self as int, *other as int);
        }
        *self / *other
    }

    fn rem_trunc(&self, other: &Self) -> (r: Self) {
        proof {
            lemma_trunc_div_bounds(*self as int, *other as int);
        }
        *self % *other
    }

    fn checked_plus(&self, other: &Self) -> (r: Option<Self>) {
        self.checked_add(*other)
    }

    fn checked_minus(&self, other: &Self) -> (r: Option<Self>) {
        self.checked_sub(*other)
    }

    fn checked_times(&self, other: &Self) -> (r: Option<Self>) {
        self.checked_mul(*other)
    }

    fn to_i128(&self) -> (r: Option<i128>) {
        Some(*self as i128)
    }

    fn checked_div_rem(&self, other: &Self) -> (r: Option<(Self, Self)>) {
        proof {
            lemma_trunc_div_bounds(*self as int, *other as int);
        }
        Some((*self / *other, *self % *other))
    }
}

impl Backing for u32 {
    open spec fn text_value(s: Seq<char>, radix: int) -> Option<int> {
        match int_text_value(s, radix, false) {
            Some(v) if Self::fits(v) => Some(v),
            _ => None,
        }
    }

    proof fn lemma_text_round_trip(v: int) {
        lemma_decimal_round_trip(v, false);
    }

    fn parse_radix(s: &str, radix: u32) -> (r: Option<Self>) {
        parse_int_of::<u32>(s, radix, false)
    }

    fn to_text(&self) -> (r: String) {
        decimal_of::<u32>(self)
    }

    fn gcd(&self, other: &Self) -> (r: Self) {
        gcd_of::<u32>(self, other)
    }

    fn checked_div_mod_floor(&self, other: &Self) -> (r: Option<(Self, Self)>) {
        div_mod_floor_of::<u32>(self, other)
    }

    fn is_even(&self) -> (r: bool) {
        is_even_of::<u32>(self)
    }

    fn pow(&self, exp: u32) -> (r: Self) {
        pow_of::<u32>(self, exp)
    }

    fn max_value() -> (r: Option<Self>) {
        Some(u32::MAX)
    }

    fn from_i128(n: i128) -> (r: Option<Self>) {
        if 0 <= n && n as u128 <= u32::MAX as u128 {
            Some(n as u32)
        } else {
            None
        }
    }

    fn from_u128(n: u128) -> (r: Option<Self>) {
        if n <= u32::MAX as u128 {
            Some(n as u32)
        } else {
            None
        }
    }
}

impl Arith for u64 {
    open spec fn val(&self) -> int {
        *self as int
    }

    open spec fn fits(v: int) -> bool {
        u64::MIN <= v <= u64::MAX
    }

    proof fn lemma_val_fits(&self) {
    }

    proof fn lemma_fits_between(lo: int, mid: int, hi: int) {
    }

    proof fn lemma_fits_small() {
    }

    proof fn lemma_fits_negation(v: int) {
    }

    fn zero() -> (r: Self) {
        0
    }

    fn one() -> (r: Self) {
        1
    }

    fn from_small(n: u8) -> (r: Self) {
        n as u64
    }

    fn dup(&self) -> (r: Self) {
        *self
    }

    fn is_zero(&self) -> (r: bool) {
        *self == 0
    }

    fn same(&self, other: &Self) -> (r: bool) {
        *self == *other
    }

    fn less(&self, other: &Self) -> (r: bool) {
        *self < *other
    }

    fn plus(&self, other: &Self) -> (r: Self) {
        *self + *other
    }

    fn minus(&self, other: &Self) -> (r: Self) {
        *self - *other
    }

    fn times(&self, other: &Self) -> (r: Self) {
        *self * *other
    }

    fn div_trunc(&self, other: &Self) -> (r: Self) {
        proof {
            lemma_trunc_div_bounds(*self as int, *other as int);
        }
        *self / *other
    }

    fn rem_trunc(&self, other: &Self) -> (r: Self) {
        proof {
            lemma_trunc_div_bounds(*self as int, *other as int);
        }
        *self % *other
    }

    fn checked_plus(&self, other: &Self) -> (r: Option<Self>) {
        self.checked_add(*other)
    }

    fn checked_minus(&self, other: &Self) -> (r: Option<Self>) {
        self.checked_sub(*other)
    }

    fn checked_times(&self, other: &Self) -> (r: Option<Self>) {
        self.checked_mul(*other)
    }

    fn to_i128(&self) -> (r: Option<i128>) {
        Some(*self as i128)
    }

    fn checked_div_rem(&self, other: &Self) -> (r: Option<(Self, Self)>) {
        proof {
            lemma_trunc_div_bounds(*self as int, *other as int);
        }
        Some((*self / *other, *self % *other))
    }
}

impl Backing for u64 {
    open spec fn text_value(s: Seq<char>, radix: int) -> Option<int> {
        match int_text_value(s, radix, false) {
            Some(v) if Self::fits(v) => Some(v),
            _ => None,
        }
    }

    proof fn lemma_text_round_trip(v: int) {
        lemma_decimal_round_trip(v, false);
    }

    fn parse_radix(s: &str, radix: u32) -> (r: Option<Self>) {
        parse_int_of::<u64>(s, radix, false)
    }

    fn to_text(&self) -> (r: String) {
        decimal_of::<u64>(self)
    }

    fn gcd(&self, other: &Self) -> (r: Self) {
        gcd_of::<u64>(self, other)
    }

    fn checked_div_mod_floor(&self, other: &Self) -> (r: Option<(Self, Self)>) {
        div_mod_floor_of::<u64>(self, other)
    }

    fn is_even(&self) -> (r: bool) {
        is_even_of::<u64>(self)
    }

    fn pow(&self, exp: u32) -> (r: Self) {
        pow_of::<u64>(self, exp)
    }

    fn max_value() -> (r: Option<Self>) {
        Some(u64::MAX)
    }

    fn from_i128(n: i128) -> (r: Option<Self>) {
        if 0 <= n && n as u128 <= u64::MAX as u128 {
            Some(n as u64)
        } else {
            None
        }
    }

    fn from_u128(n: u128) -> (r: Option<Self>) {
        if n <= u64::MAX as u128 {
            Some(n as u64)
        } else {
            None
        }
    }
}

impl Arith for u128 {
    open spec fn val(&self) -> int {
        *self as int
    }

    open spec fn fits(v: int) -> bool {
        u128::MIN <= v <= u128::MAX
    }

    proof fn lemma_val_fits(&self) {
    }

    proof fn lemma_fits_between(lo: int, mid: int, hi: int) {
    }

    proof fn lemma_fits_small() {
    }

    proof fn lemma_fits_negation(v: int) {
    }

    fn zero() -> (r: Self) {
        0
    }

    fn one() -> (r: Self) {
        1
    }

    fn from_small(n: u8) -> (r: Self) {
        n as u128
    }

    fn dup(&self) -> (r: Self) {
        *self
    }

    fn is_zero(&self) -> (r: bool) {
        *self == 0
    }

    fn same(&self, other: &Self) -> (r: bool) {
        *self == *other
    }

    fn less(&self, other: &Self) -> (r: bool) {
        *self < *other
    }

    fn plus(&self, other: &Self) -> (r: Self) {
        *self + *other
    }

    fn minus(&self, other: &Self) -> (r: Self) {
        *self - *other
    }

    fn times(&self, other: &Self) -> (r: Self) {
        *self * *other
    }

    fn div_trunc(&self, other: &Self) -> (r: Self) {
        proof {
            lemma_trunc_div_bounds(*self as int, *other as int);
        }
        *self / *other
    }

    fn rem_trunc(&self, other: &Self) -> (r: Self) {
        proof {
            lemma_trunc_div_bounds(*self as int, *other as int);
        }
        *self % *other
    }

    fn checked_plus(&self, other: &Self) -> (r: Option<Self>) {
        self.checked_add(*other)
    }

    fn checked_minus(&self, other: &Self) -> (r: Option<Self>) {
        self.checked_sub(*other)
    }

    fn checked_times(&self, other: &Self) -> (r: Option<Self>) {
        self.checked_mul(*other)
    }

    fn to_i128(&self) -> (r: Option<i128>) {
        if *self <= i128::MAX as u128 {
            Some(*self as i128)
        } else {
            None
        }
    }

    fn checked_div_rem(&self, other: &Self) -> (r: Option<(Self, Self)>) {
        proof {
            lemma_trunc_div_bounds(*self as int, *other as int);
        }
        Some((*self / *other, *self % *other))
    }
}

impl Backing for u128 {
    open spec fn text_value(s: Seq<char>, radix: int) -> Option<int> {
        match int_text_value(s, radix, false) {
            Some(v) if Self::fits(v) => Some(v),
            _ => None,
        }
    }

    proof fn lemma_text_round_trip(v: int) {
        lemma_decimal_round_trip(v, false);
    }

    fn parse_radix(s: &str, radix: u32) -> (r: Option<Self>) {
        parse_int_of::<u128>(s, radix, false)
    }

    fn to_text(&self) -> (r: String) {
        decimal_of::<u128>(self)
    }

    fn gcd(&self, other: &Self) -> (r: Self) {
        gcd_of::<u128>(self, other)
    }

    fn checked_div_mod_floor(&self, other: &Self) -> (r: Option<(Self, Self)>) {
        div_mod_floor_of::<u128>(self, other)
    }

    fn is_even(&self) -> (r: bool) {
        is_even_of::<u128>(self)
    }

    fn pow(&self, exp: u32) -> (r: Self) {
        pow_of::<u128>(self, exp)
    }

    fn max_value() -> (r: Option<Self>) {
        Some(u128::MAX)
    }

    fn from_i128(n: i128) -> (r: Option<Self>) {
        if 0 <= n && n as u128 <= u128::MAX as u128 {
            Some(n as u128)
        } else {
            None
        }
    }

    fn from_u128(n: u128) -> (r: Option<Self>) {
        Some(n)
    }
}

impl Arith for usize {
    open spec fn val(&self) -> int {
        *self as int
    }

    open spec fn fits(v: int) -> bool {
        usize::MIN <= v <= usize::MAX
    }

    proof fn lemma_val_fits(&self) {
    }

    proof fn lemma_fits_between(lo: int, mid: int, hi: int) {
    }

    proof fn lemma_fits_small() {
    }

    proof fn lemma_fits_negation(v: int) {
    }

    fn zero() -> (r: Self) {
        0
    }

    fn one() -> (r: Self) {
        1
    }

    fn from_small(n: u8) -> (r: Self) {
        n as usize
    }

    fn dup(&self) -> (r: Self) {
        *self
    }

    fn is_zero(&self) -> (r: bool) {
        *self == 0
    }

    fn same(&self, other: &Self) -> (r: bool) {
        *self == *other
    }

    fn less(&self, other: &Self) -> (r: bool) {
        *self < *other
    }

    fn plus(&self, other: &Self) -> (r: Self) {
        *self + *other
    }

    fn minus(&self, other: &Self) -> (r: Self) {
        *self - *other
    }

    fn times(&self, other: &Self) -> (r: Self) {
        *self * *other
    }

    fn div_trunc(&self, other: &Self) -> (r: Self) {
        proof {
            lemma_trunc_div_bounds(*self as int, *other as int);
        }
        *self / *other
    }

    fn rem_trunc(&self, other: &Self) -> (r: Self) {
        proof {
            lemma_trunc_div_bounds(*self as int, *other as int);
        }
        *self % *other
    }

    fn checked_plus(&self, other: &Self) -> (r: Option<Self>) {
        self.checked_add(*other)
    }

    fn checked_minus(&self, other: &Self) -> (r: Option<Self>) {
        self.checked_sub(*other)
    }

    fn checked_times(&self, other: &Self) -> (r: Option<Self>) {
        self.checked_mul(*other)
    }

    fn to_i128(&self) -> (r: Option<i128>) {
        Some(*self as i128)
    }

    fn checked_div_rem(&self, other: &Self) -> (r: Option<(Self, Self)>) {
        proof {
            lemma_trunc_div_bounds(*self as int, *other as int);
        }
        Some((*self / *other, *self % *other))
    }
}

impl Backing for usize {
    open spec fn text_value(s: Seq<char>, radix: int) -> Option<int> {
        match int_text_value(s, radix, false) {
            Some(v) if Self::fits(v) => Some(v),
            _ => None,
        }
    }

    proof fn lemma_text_round_trip(v: int) {
        lemma_decimal_round_trip(v, false);
    }

    fn parse_radix(s: &str, radix: u32) -> (r: Option<Self>) {
        parse_int_of::<usize>(s, radix, false)
    }

    fn to_text(&self) -> (r: String) {
        decimal_of::<usize>(self)
    }

    fn gcd(&self, other: &Self) -> (r: Self) {
        gcd_of::<usize>(self, other)
    }

    fn checked_div_mod_floor(&self, other: &Self) -> (r: Option<(Self, Self)>) {
        div_mod_floor_of::<usize>(self, other)
    }

    fn is_even(&self) -> (r: bool) {
        is_even_of::<usize>(self)
    }

    fn pow(&self, exp: u32) -> (r: Self) {
        pow_of::<usize>(self, exp)
    }

    fn max_value() -> (r: Option<Self>) {
        Some(usize::MAX)
    }

    fn from_i128(n: i128) -> (r: Option<Self>) {
        if 0 <= n && n as u128 <= usize::MAX as u128 {
            Some(n as usize)
        } else {
            None
        }
    }

    fn from_u128(n: u128) -> (r: Option<Self>) {
        if n <= usize::MAX as u128 {
            Some(n as usize)
        } else {
            None
        }
    }
}

} // verus!
