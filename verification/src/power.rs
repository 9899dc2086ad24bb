//! Integer powers by repeated squaring, written once over `Arith`.

use vstd::prelude::*;
use vstd::arithmetic::power::{lemma_pow0, lemma_pow1, lemma_pow_adds, lemma_pow_positive, pow};
use crate::backing::Arith;
use crate::math::abs;

verus! {

/// The size of a power is the power of the size.
pub proof fn lemma_pow_abs(x: int, k: nat)
    ensures
        abs(pow(x, k)) == pow(abs(x), k),
    decreases k,
{
    reveal(pow);
    if k > 0 {
        lemma_pow_abs(x, (k - 1) as nat);
        let p = pow(x, (k - 1) as nat);
        assert(abs(x * p) == abs(x) * abs(p)) by (nonlinear_arith);
    }
}

/// A lower power of a number of size two or more is at most half as large
/// as a higher one.
pub proof fn lemma_pow_halves(x: int, k: nat, e: nat)
    requires
        abs(x) >= 2,
        k < e,
    ensures
        2 * abs(pow(x, k)) <= abs(pow(x, e)),
    decreases e,
{
    reveal(pow);
    lemma_pow_abs(x, k);
    lemma_pow_abs(x, e);
    lemma_pow_abs(x, (e - 1) as nat);
    lemma_pow_positive(abs(x), k);
    let a = abs(x);
    let lo = pow(a, k);
    let mid = pow(a, (e - 1) as nat);
    if k < e - 1 {
        lemma_pow_halves(x, k, (e - 1) as nat);
    }
    assert(2 * lo <= a * mid) by (nonlinear_arith)
        requires
            a >= 2,
            lo > 0,
            lo <= mid,
    ;
}

/// An integer at most half the size of a representable one is representable.
pub proof fn lemma_fits_half<T: Arith>(w: int, p: int)
    requires
        T::fits(p),
        2 * abs(w) <= abs(p),
        w < 0 ==> T::fits(-1),
    ensures
        T::fits(w),
{
    T::lemma_fits_small();
    if p < 0 {
        T::lemma_fits_between(p, -1, 0);
    }
    if w >= 0 {
        if p >= 0 {
            T::lemma_fits_between(0, w, p);
        } else {
            T::lemma_fits_negation(p);
            T::lemma_fits_between(0, w, -p - 1);
        }
    } else {
        if p >= 0 {
            T::lemma_fits_negation(p);
            T::lemma_fits_between(-p, w, 0);
        } else {
            T::lemma_fits_between(p, w, 0);
        }
    }
}

/// Where a power is representable, so is every lower power.
pub proof fn lemma_lower_power_fits<T: Arith>(x: int, k: nat, e: nat)
    requires
        T::fits(x),
        T::fits(pow(x, e)),
        k <= e,
    ensures
        T::fits(pow(x, k)),
{
    T::lemma_fits_small();
    if x < 0 {
        T::lemma_fits_between(x, -1, 0);
    }
    if k == e {
    } else if abs(x) >= 2 {
        lemma_pow_halves(x, k, e);
        lemma_pow_abs(x, k);
        lemma_pow_positive(abs(x), k);
        lemma_fits_half::<T>(pow(x, k), pow(x, e));
    } else {
        lemma_pow_abs(x, k);
        if x == 0 {
            if k == 0 {
                lemma_pow0(0);
            } else {
                vstd::arithmetic::power::lemma0_pow(k);
            }
        } else {
            vstd::arithmetic::power::lemma1_pow(k);
            assert(abs(pow(x, k)) == 1);
        }
    }
}

/// `x` raised to the power `exp`, by repeated squaring.
pub fn pow_of<T: Arith>(x: &T, exp: u32) -> (r: T)
    requires
        T::fits(pow(x.val(), exp as nat)),
    ensures
        r.val() == pow(x.val(), exp as nat),
{
    if exp == 0 {
        proof {
            lemma_pow0(x.val());
        }
        return T::one();
    }
    let mut base = x.dup();
    let mut acc = T::one();
    let mut e: u32 = exp;
    let ghost mut kb: nat = 1;
    let ghost mut ka: nat = 0;
    proof {
        lemma_pow0(x.val());
        lemma_pow1(x.val());
        assert(ka + kb * e == exp) by (nonlinear_arith)
            requires
                ka == 0,
                kb == 1,
                e == exp,
        ;
    }
    while e > 1
        invariant
            e >= 1,
            kb >= 1,
            base.val() == pow(x.val(), kb),
            acc.val() == pow(x.val(), ka),
            ka + kb * e == exp,
            T::fits(pow(x.val(), exp as nat)),
        decreases e,
    {
        let ghost h = (e / 2) as nat;
        proof {
            x.lemma_val_fits();
            assert(ka + kb <= exp && 2 * kb <= exp && 2 * kb >= 1) by (nonlinear_arith)
                requires
                    ka + kb * e == exp,
                    e >= 2,
                    kb >= 1,
            ;
            lemma_pow_adds(x.val(), ka, kb);
            lemma_pow_adds(x.val(), kb, kb);
            lemma_lower_power_fits::<T>(x.val(), ka + kb, exp as nat);
            lemma_lower_power_fits::<T>(x.val(), 2 * kb, exp as nat);
        }
        if e % 2 == 1 {
            acc = acc.times(&base);
            proof {
                assert(ka + kb + (2 * kb) * h == exp) by (nonlinear_arith)
                    requires
                        ka + kb * e == exp,
                        e == 2 * h + 1,
                ;
                ka = ka + kb;
            }
        } else {
            proof {
                assert(ka + (2 * kb) * h == exp) by (nonlinear_arith)
                    requires
                        ka + kb * e == exp,
                        e == 2 * h,
                ;
            }
        }
        e = e / 2;
        base = base.times(&base);
        proof {
            kb = 2 * kb;
        }
    }
    proof {
        assert(ka + kb == exp) by (nonlinear_arith)
            requires
                ka + kb * e == exp,
                e == 1,
        ;
        lemma_pow_adds(x.val(), ka, kb);
    }
    acc.times(&base)
}

} // verus!
