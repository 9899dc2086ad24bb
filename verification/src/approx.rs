//! The integer side of approximating a number by continued fractions: the
//! convergents, kept in lowest terms and within the backing type, and the
//! count of the terms that may still be taken. The side that measures the
//! number and its error in floating point belongs to the caller, who feeds
//! the terms one by one.

use vstd::prelude::*;
use vstd::arithmetic::power::{lemma_pow_positive, pow};
use num_bigint::BigInt;
use crate::backing::{Arith, Backing};
use crate::euclid::lemma_quotient_fits;
use crate::fraction::{lemma_exact_div_abs, lemma_reduced, Fraction};
use crate::math::{abs, gcd, lemma_gcd_nat_zero, lemma_trunc_div_bounds};
use crate::ratio::{lemma_exact_trunc, Ratio};

verus! {

/// Two neighbouring convergents `n0/d0` and `n1/d1` of a continued
/// fraction, as mathematical integers.
pub struct ConvergentPair {
    pub n0: int,
    pub d0: int,
    pub n1: int,
    pub d1: int,
}

impl ConvergentPair {
    /// The pair before any term: `0/1` and `1/0`.
    pub open spec fn initial() -> ConvergentPair {
        ConvergentPair { n0: 0, d0: 1, n1: 1, d1: 0 }
    }

    /// The numerator of the next convergent for the term `a`.
    pub open spec fn next_numer(self, a: int) -> int {
        a * self.n1 + self.n0
    }

    /// The denominator of the next convergent for the term `a`.
    pub open spec fn next_denom(self, a: int) -> int {
        a * self.d1 + self.d0
    }

    /// The pair after the term `a`: the newer convergent becomes the
    /// older, and the next one, divided by the greatest common divisor of
    /// its parts, the newer.
    pub open spec fn advanced(self, a: int) -> ConvergentPair {
        let n = self.next_numer(a);
        let d = self.next_denom(a);
        let g = gcd(n, d);
        if g == 0 {
            ConvergentPair { n0: self.n1, d0: self.d1, n1: n, d1: d }
        } else {
            ConvergentPair { n0: self.n1, d0: self.d1, n1: n / g, d1: d / g }
        }
    }
}

/// The state of an approximation: two neighbouring convergents in `T`,
/// none of their parts negative, and the number of terms that may still be
/// taken, where there is a limit.
pub struct Convergents<T: Backing> {
    n0: T,
    d0: T,
    n1: T,
    d1: T,
    left: Option<usize>,
}

impl<T: Backing> View for Convergents<T> {
    type V = ConvergentPair;

    closed spec fn view(&self) -> ConvergentPair {
        ConvergentPair {
            n0: self.n0.val(),
            d0: self.d0.val(),
            n1: self.n1.val(),
            d1: self.d1.val(),
        }
    }
}

impl<T: Backing> Convergents<T> {
    /// What holds of every state: no part is negative.
    #[verifier::type_invariant]
    pub open spec fn well_formed(self) -> bool {
        self@.n0 >= 0 && self@.d0 >= 0 && self@.n1 >= 0 && self@.d1 >= 0
    }

    /// The number of terms that may still be taken; `None` where there is
    /// no limit.
    pub closed spec fn terms_left(&self) -> Option<nat> {
        match self.left {
            Some(k) => Some(k as nat),
            None => None,
        }
    }

    /// Whether `T` has room for the next convergent and for the two
    /// products on the way to it.
    pub open spec fn has_room(pair: ConvergentPair, a: int) -> bool {
        &&& T::fits(a * pair.n1)
        &&& T::fits(a * pair.d1)
        &&& T::fits(pair.next_numer(a))
        &&& T::fits(pair.next_denom(a))
    }

    /// The state before any term, with no limit on their number.
    pub fn start() -> (r: Convergents<T>)
        ensures
            r@ == ConvergentPair::initial(),
            r.terms_left() is None,
    {
        Convergents { n0: T::zero(), d0: T::one(), n1: T::one(), d1: T::zero(), left: None }
    }

    /// The state before any term, which will take `max_terms` terms and no
    /// more.
    pub fn with_terms(max_terms: usize) -> (r: Convergents<T>)
        ensures
            r@ == ConvergentPair::initial(),
            r.terms_left() == Some(max_terms as nat),
    {
        Convergents {
            n0: T::zero(),
            d0: T::one(),
            n1: T::one(),
            d1: T::zero(),
            left: Some(max_terms),
        }
    }

    /// The next convergent for the term `a`, where it is within `T`.
    fn next(&self, a: &T) -> (r: Option<(T, T)>)
        ensures
            r is Some <==> Self::has_room(self@, a.val()),
            r matches Some(nd) ==> nd.0.val() == self@.next_numer(a.val()) && nd.1.val()
                == self@.next_denom(a.val()),
    {
        let an = match a.checked_times(&self.n1) {
            Some(v) => v,
            None => return None,
        };
        let ad = match a.checked_times(&self.d1) {
            Some(v) => v,
            None => return None,
        };
        let n = match an.checked_plus(&self.n0) {
            Some(v) => v,
            None => return None,
        };
        let d = match ad.checked_plus(&self.d0) {
            Some(v) => v,
            None => return None,
        };
        Some((n, d))
    }

    /// Takes the next term `a` of the continued fraction.
    ///
    /// Where a term may still be taken and `T` has room for the next
    /// convergent, the state advances to it, one term fewer is left, and
    /// the convergent is handed back as it was before reduction, for the
    /// caller to measure the error. Where the terms are spent or `T` has no
    /// room, the state stays and `None` tells the caller to stop.
    pub fn step(&mut self, a: &T) -> (r: Option<(T, T)>)
        requires
            a.val() >= 0,
        ensures
            r is Some <==> old(self).terms_left() != Some(0nat) && Self::has_room(
                old(self)@,
                a.val(),
            ),
            r is None ==> final(self)@ == old(self)@ && final(self).terms_left() == old(
                self,
            ).terms_left(),
            r matches Some(nd) ==> nd.0.val() == old(self)@.next_numer(a.val()) && nd.1.val()
                == old(self)@.next_denom(a.val()) && final(self)@ == old(self)@.advanced(a.val()),
            r is Some ==> final(self).terms_left() == match old(self).terms_left() {
                Some(k) => Some((k - 1) as nat),
                None => None,
            },
    {
        proof {
            use_type_invariant(&*self);
        }
        let left = match self.left {
            Some(0) => return None,
            Some(k) => Some(k - 1),
            None => None,
        };
        let (n, d) = match self.next(a) {
            Some(nd) => nd,
            None => return None,
        };
        proof {
            n.lemma_val_fits();
            d.lemma_val_fits();
            T::lemma_fits_small();
            lemma_product_nonnegative(a.val(), self@.n1);
            lemma_product_nonnegative(a.val(), self@.d1);
            lemma_gcd_bound(n.val(), d.val());
            if n.val() <= d.val() {
                T::lemma_fits_between(0, gcd(n.val(), d.val()), d.val());
            } else {
                T::lemma_fits_between(0, gcd(n.val(), d.val()), n.val());
            }
        }
        let g = n.gcd(&d);
        let (n1, d1) = if g.is_zero() {
            (n.dup(), d.dup())
        } else {
            proof {
                lemma_quotient_fits::<T>(n.val(), g.val());
                lemma_quotient_fits::<T>(d.val(), g.val());
                lemma_trunc_div_bounds(n.val(), g.val());
                lemma_trunc_div_bounds(d.val(), g.val());
                lemma_gcd_divides(n.val(), d.val());
                lemma_exact_trunc(n.val(), g.val());
                lemma_exact_trunc(d.val(), g.val());
            }
            (n.div_trunc(&g), d.div_trunc(&g))
        };
        *self = Convergents { n0: self.n1.dup(), d0: self.d1.dup(), n1, d1, left };
        Some((n, d))
    }

    /// The newer convergent as a ratio, or `None` where no term has given
    /// it a denominator.
    pub fn finish(self) -> (r: Option<Ratio<T>>)
        ensures
            r is Some <==> self@.d1 != 0,
            r matches Some(v) ==> v@ == (Fraction { num: self@.n1, den: self@.d1 }).reduced(),
    {
        proof {
            use_type_invariant(&self);
            self.n1.lemma_val_fits();
            self.d1.lemma_val_fits();
            if self@.d1 != 0 {
                Ratio::<T>::lemma_can_reduce(Fraction { num: self@.n1, den: self@.d1 });
            }
        }
        if self.d1.is_zero() {
            None
        } else {
            Some(Ratio::new(self.n1, self.d1))
        }
    }
}

/// A product of two numbers that are not negative is not negative.
proof fn lemma_product_nonnegative(a: int, b: int)
    by (nonlinear_arith)
    requires
        a >= 0,
        b >= 0,
    ensures
        a * b >= 0,
{
}

/// The greatest common divisor of two numbers that are not negative is
/// no larger than the larger of them.
proof fn lemma_gcd_bound(n: int, d: int)
    requires
        n >= 0,
        d >= 0,
    ensures
        0 <= gcd(n, d),
        gcd(n, d) <= if n <= d {
            d
        } else {
            n
        },
{
    if d != 0 {
        lemma_reduced(Fraction { num: n, den: d });
    } else {
        lemma_gcd_nat_zero(n as nat);
    }
}

/// A greatest common divisor that is not zero divides both numbers.
proof fn lemma_gcd_divides(n: int, d: int)
    requires
        gcd(n, d) != 0,
    ensures
        gcd(n, d) > 0,
        n % gcd(n, d) == 0,
        d % gcd(n, d) == 0,
{
    let a = abs(n) as nat;
    let b = abs(d) as nat;
    if a == 0 && b == 0 {
        lemma_gcd_nat_zero(0);
    }
    crate::math::lemma_gcd_nat_divides(a, b);
    lemma_exact_div_abs(n, gcd(n, d));
    lemma_exact_div_abs(d, gcd(n, d));
}

/// Plus or minus one, for the sign of a decoded floating-point number.
pub open spec fn sign_factor(sign: i8) -> int {
    if sign == 1 {
        1
    } else {
        -1
    }
}

/// The size of a binary exponent.
pub open spec fn shift_size(exponent: i16) -> nat {
    if exponent < 0 {
        (-exponent) as nat
    } else {
        exponent as nat
    }
}

impl Ratio<BigInt> {
    /// The exact ratio of a floating-point number that was taken apart
    /// into `sign * mantissa * 2^exponent`; `sign` is 1 or -1.
    pub fn from_float_parts(mantissa: u64, exponent: i16, sign: i8) -> (r: Ratio<BigInt>)
        ensures
            exponent < 0 ==> r@ == (Fraction {
                num: sign_factor(sign) * mantissa,
                den: pow(2, shift_size(exponent)),
            }).reduced(),
            exponent >= 0 ==> r@ == Fraction::integer(
                sign_factor(sign) * (mantissa * pow(2, shift_size(exponent))),
            ),
    {
        let size = <BigInt as Backing>::from_u128(mantissa as u128).unwrap();
        let two = <BigInt as Arith>::from_small(2);
        let shift: u32 = if exponent < 0 {
            (-(exponent as i32)) as u32
        } else {
            exponent as u32
        };
        let scale = Backing::pow(&two, shift);
        proof {
            lemma_pow_positive(2, shift as nat);
        }
        if exponent < 0 {
            proof {
                assert(1 * mantissa == mantissa && -1 * mantissa == 0 - mantissa);
            }
            let numer = if sign == 1 {
                size
            } else {
                <BigInt as Arith>::zero().minus(&size)
            };
            Ratio::new(numer, scale)
        } else {
            let whole = size.times(&scale);
            proof {
                let w = mantissa * pow(2, shift_size(exponent));
                assert(1 * w == w && -1 * w == 0 - w);
            }
            let numer = if sign == 1 {
                whole
            } else {
                <BigInt as Arith>::zero().minus(&whole)
            };
            Ratio::from_integer(numer)
        }
    }
}

} // verus!
