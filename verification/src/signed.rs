//! The integer capability of the signed machine integers.

use vstd::prelude::*;
use crate::backing::{Arith, Backing};
use crate::euclid::{div_mod_floor_of, gcd_of, is_even_of};
use crate::math::lemma_trunc_div_bounds;
use crate::power::pow_of;
use crate::text::{decimal_of, int_text_value, lemma_decimal_round_trip, parse_int_of};

verus! {

impl Arith for i8 {
    open spec fn val(&self) -> int {
        *self as int
    }

    open spec fn fits(v: int) -> bool {
        i8::MIN <= v <= i8::MAX
    }

    proof fn lemma_val_fits(&self) {
    }

    proof fn lemma_fits_between(lo: int, mid: int, hi: int) {
    }

    proof fn lemma_fits_small() {
    }

    proof fn lemma_fits_negation(v: int) {
    }

    fn zero() -> (r: Self) {
        0
    }

    fn one() -> (r: Self) {
        1
    }

    fn from_small(n: u8) -> (r: Self) {
        n as i8
    }

    fn dup(&self) -> (r: Self) {
        *self
    }

    fn is_zero(&self) -> (r: bool) {
        *self == 0
    }

    fn same(&self, other: &Self) -> (r: bool) {
        *self == *other
    }

    fn less(&self, other: &Self) -> (r: bool) {
        *self < *other
    }

    fn plus(&self, other: &Self) -> (r: Self) {
        *self + *other
    }

    fn minus(&self, other: &Self) -> (r: Self) {
        *self - *other
    }

    fn times(&self, other: &Self) -> (r: Self) {
        *self * *other
    }

    fn div_trunc(&self, other: &Self) -> (r: Self) {
        proof {
            lemma_trunc_div_bounds(*self as int, *other as int);
        }
        *self / *other
    }

    fn rem_trunc(&self, other: &Self) -> (r: Self) {
        proof {
            lemma_trunc_div_bounds(*self as int, *other as int);
        }
        *self % *other
    }

    fn checked_plus(&self, other: &Self) -> (r: Option<Self>) {
        self.checked_add(*other)
    }

    fn checked_minus(&self, other: &Self) -> (r: Option<Self>) {
        self.checked_sub(*other)
    }

    fn checked_times(&self, other: &Self) -> (r: Option<Self>) {
        self.checked_mul(*other)
    }

    fn to_i128(&self) -> (r: Option<i128>) {
        Some(*self as i128)
    }

    fn checked_div_rem(&self, other: &Self) -> (r: Option<(Self, Self)>) {
        proof {
            lemma_trunc_div_bounds(*self as int, *other as int);
        }
        if *self == i8::MIN && *other == -1 {
            None
        } else {
            Some((*self / *other, *self % *other))
        }
    }
}

impl Backing for i8 {
    open spec fn text_value(s: Seq<char>, radix: int) -> Option<int> {
        match int_text_value(s, radix, true) {
            Some(v) if Self::fits(v) => Some(v),
            _ => None,
        }
    }

    proof fn lemma_text_round_trip(v: int) {
        lemma_decimal_round_trip(v, true);
    }

    fn parse_radix(s: &str, radix: u32) -> (r: Option<Self>) {
        parse_int_of::<i8>(s, radix, true)
    }

    fn to_text(&self) -> (r: String) {
        decimal_of::<i8>(self)
    }

    fn gcd(&self, other: &Self) -> (r: Self) {
        gcd_of::<i8>(self, other)
    }

    fn checked_div_mod_floor(&self, other: &Self) -> (r: Option<(Self, Self)>) {
        div_mod_floor_of::<i8>(self, other)
    }

    fn is_even(&self) -> (r: bool) {
        is_even_of::<i8>(self)
    }

    fn pow(&self, exp: u32) -> (r: Self) {
        pow_of::<i8>(self, exp)
    }

    fn max_value() -> (r: Option<Self>) {
        Some(i8::MAX)
    }

    fn from_i128(n: i128) -> (r: Option<Self>) {
        if i8::MIN as i128 <= n && n <= i8::MAX as i128 {
            Some(n as i8)
        } else {
            None
        }
    }

    fn from_u128(n: u128) -> (r: Option<Self>) {
        if n <= i8::MAX as u128 {
            Some(n as i8)
        } else {
            None
        }
    }
}

impl Arith for i16 {
    open spec fn val(&self) -> int {
        *self as int
    }

    open spec fn fits(v: int) -> bool {
        i16::MIN <= v <= i16::MAX
    }

    proof fn lemma_val_fits(&self) {
    }

    proof fn lemma_fits_between(lo: int, mid: int, hi: int) {
    }

    proof fn lemma_fits_small() {
    }

    proof fn lemma_fits_negation(v: int) {
    }

    fn zero() -> (r: Self) {
        0
    }

    fn one() -> (r: Self) {
        1
    }

    fn from_small(n: u8) -> (r: Self) {
        n as i16
    }

    fn dup(&self) -> (r: Self) {
        *self
    }

    fn is_zero(&self) -> (r: bool) {
        *self == 0
    }

    fn same(&self, other: &Self) -> (r: bool) {
        *self == *other
    }

    fn less(&self, other: &Self) -> (r: bool) {
        *self < *other
    }

    fn plus(&self, other: &Self) -> (r: Self) {
        *self + *other
    }

    fn minus(&self, other: &Self) -> (r: Self) {
        *self - *other
    }

    fn times(&self, other: &Self) -> (r: Self) {
        *self * *other
    }

    fn div_trunc(&self, other: &Self) -> (r: Self) {
        proof {
            lemma_trunc_div_bounds(*self as int, *other as int);
        }
        *self / *other
    }

    fn rem_trunc(&self, other: &Self) -> (r: Self) {
        proof {
            lemma_trunc_div_bounds(*self as int, *other as int);
        }
        *self % *other
    }

    fn checked_plus(&self, other: &Self) -> (r: Option<Self>) {
        self.checked_add(*other)
    }

    fn checked_minus(&self, other: &Self) -> (r: Option<Self>) {
        self.checked_sub(*other)
    }

    fn checked_times(&self, other: &Self) -> (r: Option<Self>) {
        self.checked_mul(*other)
    }

    fn to_i128(&self) -> (r: Option<i128>) {
        Some(*self as i128)
    }

    fn checked_div_rem(&self, other: &Self) -> (r: Option<(Self, Self)>) {
        proof {
            lemma_trunc_div_bounds(*self as int, *other as int);
        }
        if *self == i16::MIN && *other == -1 {
            None
        } else {
            Some((*self / *other, *self % *other))
        }
    }
}

impl Backing for i16 {
    open spec fn text_value(s: Seq<char>, radix: int) -> Option<int> {
        match int_text_value(s, radix, true) {
            Some(v) if Self::fits(v) => Some(v),
            _ => None,
        }
    }

    proof fn lemma_text_round_trip(v: int) {
        lemma_decimal_round_trip(v, true);
    }

    fn parse_radix(s: &str, radix: u32) -> (r: Option<Self>) {
        parse_int_of::<i16>(s, radix, true)
    }

    fn to_text(&self) -> (r: String) {
        decimal_of::<i16>(self)
    }

    fn gcd(&self, other: &Self) -> (r: Self) {
        gcd_of::<i16>(self, other)
    }

    fn checked_div_mod_floor(&self, other: &Self) -> (r: Option<(Self, Self)>) {
        div_mod_floor_of::<i16>(self, other)
    }

    fn is_even(&self) -> (r: bool) {
        is_even_of::<i16>(self)
    }

    fn pow(&self, exp: u32) -> (r: Self) {
        pow_of::<i16>(self, exp)
    }

    fn max_value() -> (r: Option<Self>) {
        Some(i16::MAX)
    }

    fn from_i128(n: i128) -> (r: Option<Self>) {
        if i16::MIN as i128 <= n && n <= i16::MAX as i128 {
            Some(n as i16)
        } else {
            None
        }
    }

    fn from_u128(n: u128) -> (r: Option<Self>) {
        if n <= i16::MAX as u128 {
            Some(n as i16)
        } else {
            None
        }
    }
}

impl Arith for i32 {
    open spec fn val(&self) -> int {
        *self as int
    }

    open spec fn fits(v: int) -> bool {
        i32::MIN <= v <= i32::MAX
    }

    proof fn lemma_val_fits(&self) {
    }

    proof fn lemma_fits_between(lo: int, mid: int, hi: int) {
    }

    proof fn lemma_fits_small() {
    }

    proof fn lemma_fits_negation(v: int) {
    }

    fn zero() -> (r: Self) {
        0
    }

    fn one() -> (r: Self) {
        1
    }

    fn from_small(n: u8) -> (r: Self) {
        n as i32
    }

    fn dup(&self) -> (r: Self) {
        *self
    }

    fn is_zero(&self) -> (r: bool) {
        *self == 0
    }

    fn same(&self, other: &Self) -> (r: bool) {
        *self == *other
    }

    fn less(&self, other: &Self) -> (r: bool) {
        *self < *other
    }

    fn plus(&self, other: &Self) -> (r: Self) {
        *self + *other
    }

    fn minus(&self, other: &Self) -> (r: Self) {
        *self - *other
    }

    fn times(&self, other: &Self) -> (r: Self) {
        *self * *other
    }

    fn div_trunc(&self, other: &Self) -> (r: Self) {
        proof {
            lemma_trunc_div_bounds(*self as int, *other as int);
        }
        *self / *other
    }

    fn rem_trunc(&self, other: &Self) -> (r: Self) {
        proof {
            lemma_trunc_div_bounds(*self as int, *other as int);
        }
        *self % *other
    }

    fn checked_plus(&self, other: &Self) -> (r: Option<Self>) {
        self.checked_add(*other)
    }

    fn checked_minus(&self, other: &Self) -> (r: Option<Self>) {
        self.checked_sub(*other)
    }

    fn checked_times(&self, other: &Self) -> (r: Option<Self>) {
        self.checked_mul(*other)
    }

    fn to_i128(&self) -> (r: Option<i128>) {
        Some(*self as i128)
    }

    fn checked_div_rem(&self, other: &Self) -> (r: Option<(Self, Self)>) {
        proof {
            lemma_trunc_div_bounds(*self as int, *other as int);
        }
        if *self == i32::MIN && *other == -1 {
            None
        } else {
            Some((*self / *other, *self % *other))
        }
    }
}

impl Backing for i32 {
    open spec fn text_value(s: Seq<char>, radix: int) -> Option<int> {
        match int_text_value(s, radix, true) {
            Some(v) if Self::fits(v) => Some(v),
            _ => None,
        }
    }

    proof fn lemma_text_round_trip(v: int) {
        lemma_decimal_round_trip(v, true);
    }

    fn parse_radix(s: &str, radix: u32) -> (r: Option<Self>) {
        parse_int_of::<i32>(s, radix, true)
    }

    fn to_text(&self) -> (r: String) {
        decimal_of::<i32>(self)
    }

    fn gcd(&self, other: &Self) -> (r: Self) {
        gcd_of::<i32>(self, other)
    }

    fn checked_div_mod_floor(&self, other: &Self) -> (r: Option<(Self, Self)>) {
        div_mod_floor_of::<i32>(self, other)
    }

    fn is_even(&self) -> (r: bool) {
        is_even_of::<i32>(self)
    }

    fn pow(&self, exp: u32) -> (r: Self) {
        pow_of::<i32>(self, exp)
    }

    fn max_value() -> (r: Option<Self>) {
        Some(i32::MAX)
    }

    fn from_i128(n: i128) -> (r: Option<Self>) {
        if i32::MIN as i128 <= n && n <= i32::MAX as i128 {
            Some(n as i32)
        } else {
            None
        }
    }

    fn from_u128(n: u128) -> (r: Option<Self>) {
        if n <= i32::MAX as u128 {
            Some(n as i32)
        } else {
            None
        }
    }
}

impl Arith for i64 {
    open spec fn val(&self) -> int {
        *self as int
    }

    open spec fn fits(v: int) -> bool {
        i64::MIN <= v <= i64::MAX
    }

    proof fn lemma_val_fits(&self) {
    }

    proof fn lemma_fits_between(lo: int, mid: int, hi: int) {
    }

    proof fn lemma_fits_small() {
    }

    proof fn lemma_fits_negation(v: int) {
    }

    fn zero() -> (r: Self) {
        0
    }

    fn one() -> (r: Self) {
        1
    }

    fn from_small(n: u8) -> (r: Self) {
        n as i64
    }

    fn dup(&self) -> (r: Self) {
        *self
    }

    fn is_zero(&self) -> (r: bool) {
        *self == 0
    }

    fn same(&self, other: &Self) -> (r: bool) {
        *self == *other
    }

    fn less(&self, other: &Self) -> (r: bool) {
        *self < *other
    }

    fn plus(&self, other: &Self) -> (r: Self) {
        *self + *other
    }

    fn minus(&self, other: &Self) -> (r: Self) {
        *self - *other
    }

    fn times(&self, other: &Self) -> (r: Self) {
        *self * *other
    }

    fn div_trunc(&self, other: &Self) -> (r: Self) {
        proof {
            lemma_trunc_div_bounds(*self as int, *other as int);
        }
        *self / *other
    }

    fn rem_trunc(&self, other: &Self) -> (r: Self) {
        proof {
            lemma_trunc_div_bounds(*self as int, *other as int);
        }
        *self % *other
    }

    fn checked_plus(&self, other: &Self) -> (r: Option<Self>) {
        self.checked_add(*other)
    }

    fn checked_minus(&self, other: &Self) -> (r: Option<Self>) {
        self.checked_sub(*other)
    }

    fn checked_times(&self, other: &Self) -> (r: Option<Self>) {
        self.checked_mul(*other)
    }

    fn to_i128(&self) -> (r: Option<i128>) {
        Some(*self as i128)
    }

    fn checked_div_rem(&self, other: &Self) -> (r: Option<(Self, Self)>) {
        proof {
            lemma_trunc_div_bounds(*self as int, *other as int);
        }
        if *self == i64::MIN && *other == -1 {
            None
        } else {
            Some((*self / *other, *self % *other))
        }
    }
}

impl Backing for i64 {
    open spec fn text_value(s: Seq<char>, radix: int) -> Option<int> {
        match int_text_value(s, radix, true) {
            Some(v) if Self::fits(v) => Some(v),
            _ => None,
        }
    }

    proof fn lemma_text_round_trip(v: int) {
        lemma_decimal_round_trip(v, true);
    }

    fn parse_radix(s: &str, radix: u32) -> (r: Option<Self>) {
        parse_int_of::<i64>(s, radix, true)
    }

    fn to_text(&self) -> (r: String) {
        decimal_of::<i64>(self)
    }

    fn gcd(&self, other: &Self) -> (r: Self) {
        gcd_of::<i64>(self, other)
    }

    fn checked_div_mod_floor(&self, other: &Self) -> (r: Option<(Self, Self)>) {
        div_mod_floor_of::<i64>(self, other)
    }

    fn is_even(&self) -> (r: bool) {
        is_even_of::<i64>(self)
    }

    fn pow(&self, exp: u32) -> (r: Self) {
        pow_of::<i64>(self, exp)
    }

    fn max_value() -> (r: Option<Self>) {
        Some(i64::MAX)
    }

    fn from_i128(n: i128) -> (r: Option<Self>) {
        if i64::MIN as i128 <= n && n <= i64::MAX as i128 {
            Some(n as i64)
        } else {
            None
        }
    }

    fn from_u128(n: u128) -> (r: Option<Self>) {
        if n <= i64::MAX as u128 {
            Some(n as i64)
        } else {
            None
        }
    }
}

impl Arith for i128 {
    open spec fn val(&self) -> int {
        *self as int
    }

    open spec fn fits(v: int) -> bool {
        i128::MIN <= v <= i128::MAX
    }

    proof fn lemma_val_fits(&self) {
    }

    proof fn lemma_fits_between(lo: int, mid: int, hi: int) {
    }

    proof fn lemma_fits_small() {
    }

    proof fn lemma_fits_negation(v: int) {
    }

    fn zero() -> (r: Self) {
        0
    }

    fn one() -> (r: Self) {
        1
    }

    fn from_small(n: u8) -> (r: Self) {
        n as i128
    }

    fn dup(&self) -> (r: Self) {
        *self
    }

    fn is_zero(&self) -> (r: bool) {
        *self == 0
    }

    fn same(&self, other: &Self) -> (r: bool) {
        *self == *other
    }

    fn less(&self, other: &Self) -> (r: bool) {
        *self < *other
    }

    fn plus(&self, other: &Self) -> (r: Self) {
        *self + *other
    }

    fn minus(&self, other: &Self) -> (r: Self) {
        *self - *other
    }

    fn times(&self, other: &Self) -> (r: Self) {
        *self * *other
    }

    fn div_trunc(&self, other: &Self) -> (r: Self) {
        proof {
            lemma_trunc_div_bounds(*self as int, *other as int);
        }
        *self / *other
    }

    fn rem_trunc(&self, other: &Self) -> (r: Self) {
        proof {
            lemma_trunc_div_bounds(*self as int, *other as int);
        }
        *self % *other
    }

    fn checked_plus(&self, other: &Self) -> (r: Option<Self>) {
        self.checked_add(*other)
    }

    fn checked_minus(&self, other: &Self) -> (r: Option<Self>) {
        self.checked_sub(*other)
    }

    fn checked_times(&self, other: &Self) -> (r: Option<Self>) {
        self.checked_mul(*other)
    }

    fn to_i128(&self) -> (r: Option<i128>) {
        Some(*self)
    }

    fn checked_div_rem(&self, other: &Self) -> (r: Option<(Self, Self)>) {
        proof {
            lemma_trunc_div_bounds(*self as int, *other as int);
        }
        if *self == i128::MIN && *other == -1 {
            None
        } else {
            Some((*self / *other, *self % *other))
        }
    }
}

impl Backing for i128 {
    open spec fn text_value(s: Seq<char>, radix: int) -> Option<int> {
        match int_text_value(s, radix, true) {
            Some(v) if Self::fits(v) => Some(v),
            _ => None,
        }
    }

    proof fn lemma_text_round_trip(v: int) {
        lemma_decimal_round_trip(v, true);
    }

    fn parse_radix(s: &str, radix: u32) -> (r: Option<Self>) {
        parse_int_of::<i128>(s, radix, true)
    }

    fn to_text(&self) -> (r: String) {
        decimal_of::<i128>(self)
    }

    fn gcd(&self, other: &Self) -> (r: Self) {
        gcd_of::<i128>(self, other)
    }

    fn checked_div_mod_floor(&self, other: &Self) -> (r: Option<(Self, Self)>) {
        div_mod_floor_of::<i128>(self, other)
    }

    fn is_even(&self) -> (r: bool) {
        is_even_of::<i128>(self)
    }

    fn pow(&self, exp: u32) -> (r: Self) {
        pow_of::<i128>(self, exp)
    }

    fn max_value() -> (r: Option<Self>) {
        Some(i128::MAX)
    }

    fn from_i128(n: i128) -> (r: Option<Self>) {
        Some(n)
    }

    fn from_u128(n: u128) -> (r: Option<Self>) {
        if n <= i128::MAX as u128 {
            Some(n as i128)
        } else {
            None
        }
    }
}

impl Arith for isize {
    open spec fn val(&self) -> int {
        *self as int
    }

    open spec fn fits(v: int) -> bool {
        isize::MIN <= v <= isize::MAX
    }

    proof fn lemma_val_fits(&self) {
    }

    proof fn lemma_fits_between(lo: int, mid: int, hi: int) {
    }

    proof fn lemma_fits_small() {
    }

    proof fn lemma_fits_negation(v: int) {
    }

    fn zero() -> (r: Self) {
        0
    }

    fn one() -> (r: Self) {
        1
    }

    fn from_small(n: u8) -> (r: Self) {
        n as isize
    }

    fn dup(&self) -> (r: Self) {
        *self
    }

    fn is_zero(&self) -> (r: bool) {
        *self == 0
    }

    fn same(&self, other: &Self) -> (r: bool) {
        *self == *other
    }

    fn less(&self, other: &Self) -> (r: bool) {
        *self < *other
    }

    fn plus(&self, other: &Self) -> (r: Self) {
        *self + *other
    }

    fn minus(&self, other: &Self) -> (r: Self) {
        *self - *other
    }

    fn times(&self, other: &Self) -> (r: Self) {
        *self * *other
    }

    fn div_trunc(&self, other: &Self) -> (r: Self) {
        proof {
            lemma_trunc_div_bounds(*self as int, *other as int);
        }
        *self / *other
    }

    fn rem_trunc(&self, other: &Self) -> (r: Self) {
        proof {
            lemma_trunc_div_bounds(*self as int, *other as int);
        }
        *self % *other
    }

    fn checked_plus(&self, other: &Self) -> (r: Option<Self>) {
        self.checked_add(*other)
    }

    fn checked_minus(&self, other: &Self) -> (r: Option<Self>) {
        self.checked_sub(*other)
    }

    fn checked_times(&self, other: &Self) -> (r: Option<Self>) {
        self.checked_mul(*other)
    }

    fn to_i128(&self) -> (r: Option<i128>) {
        Some(*self as i128)
    }

    fn checked_div_rem(&self, other: &Self) -> (r: Option<(Self, Self)>) {
        proof {
            lemma_trunc_div_bounds(*self as int, *other as int);
        }
        if *self == isize::MIN && *other == -1 {
            None
        } else {
            Some((*self / *other, *self % *other))
        }
    }
}

impl Backing for isize {
    open spec fn text_value(s: Seq<char>, radix: int) -> Option<int> {
        match int_text_value(s, radix, true) {
            Some(v) if Self::fits(v) => Some(v),
            _ => None,
        }
    }

    proof fn lemma_text_round_trip(v: int) {
        lemma_decimal_round_trip(v, true);
    }

    fn parse_radix(s: &str, radix: u32) -> (r: Option<Self>) {
        parse_int_of::<isize>(s, radix, true)
    }

    fn to_text(&self) -> (r: String) {
        decimal_of::<isize>(self)
    }

    fn gcd(&self, other: &Self) -> (r: Self) {
        gcd_of::<isize>(self, other)
    }

    fn checked_div_mod_floor(&self, other: &Self) -> (r: Option<(Self, Self)>) {
        div_mod_floor_of::<isize>(self, other)
    }

    fn is_even(&self) -> (r: bool) {
        is_even_of::<isize>(self)
    }

    fn pow(&self, exp: u32) -> (r: Self) {
        pow_of::<isize>(self, exp)
    }

    fn max_value() -> (r: Option<Self>) {
        Some(isize::MAX)
    }

    fn from_i128(n: i128) -> (r: Option<Self>) {
        if isize::MIN as i128 <= n && n <= isize::MAX as i128 {
            Some(n as isize)
        } else {
            None
        }
    }

    fn from_u128(n: u128) -> (r: Option<Self>) {
        if n <= isize::MAX as u128 {
            Some(n as isize)
        } else {
            None
        }
    }
}

} // verus!
