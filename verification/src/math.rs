//! Integer arithmetic that the contracts of this crate are stated in:
//! greatest common divisors and the three roundings of an integer quotient.

use vstd::prelude::*;
use vstd::arithmetic::div_mod::{
    lemma_fundamental_div_mod, lemma_fundamental_div_mod_converse, lemma_mod_multiples_vanish,
    lemma_truncate_middle,
};

verus! {

/// Absolute value.
pub open spec fn abs(v: int) -> int {
    if v < 0 {
        -v
    } else {
        v
    }
}

/// Sign of `v`: -1, 0 or 1.
pub open spec fn signum(v: int) -> int {
    if v < 0 {
        -1
    } else if v == 0 {
        0
    } else {
        1
    }
}

/// Greatest common divisor of two naturals, by Euclid's recurrence.
pub open spec fn gcd_nat(a: nat, b: nat) -> nat
    decreases b,
{
    if b == 0 {
        a
    } else {
        gcd_nat(b, a % b)
    }
}

/// Greatest common divisor of two integers; never negative, and zero only
/// for `gcd(0, 0)`.
pub open spec fn gcd(a: int, b: int) -> int {
    gcd_nat(abs(a) as nat, abs(b) as nat) as int
}

/// Quotient rounded toward zero, as machine division rounds it.
pub open spec fn trunc_div(n: int, d: int) -> int {
    if n >= 0 {
        n / d
    } else {
        -((-n) / d)
    }
}

/// Remainder that belongs to `trunc_div`; it is zero or has the sign of `n`.
pub open spec fn trunc_rem(n: int, d: int) -> int {
    if n >= 0 {
        n % d
    } else {
        -((-n) % d)
    }
}

/// Quotient rounded toward minus infinity.
pub open spec fn floor_div(n: int, d: int) -> int {
    if d > 0 {
        n / d
    } else {
        (-n) / (-d)
    }
}

/// Remainder that belongs to `floor_div`; it is zero or has the sign of `d`.
pub open spec fn floor_mod(n: int, d: int) -> int {
    n - d * floor_div(n, d)
}

/// Quotient rounded toward plus infinity.
pub open spec fn ceil_div(n: int, d: int) -> int {
    -floor_div(-n, d)
}

/// Quotient rounded to the nearest integer, halves away from zero.
pub open spec fn round_div(n: int, d: int) -> int {
    if 2 * abs(trunc_rem(n, d)) >= abs(d) {
        if (n >= 0) == (d > 0) {
            trunc_div(n, d) + 1
        } else {
            trunc_div(n, d) - 1
        }
    } else {
        trunc_div(n, d)
    }
}

pub proof fn lemma_gcd_nat_zero(a: nat)
    ensures
        gcd_nat(a, 0) == a,
        gcd_nat(0, a) == a,
{
    if a != 0 {
        assert(0nat % a == 0);
        assert(gcd_nat(0, a) == gcd_nat(a, 0));
    }
}

/// The greatest common divisor is positive unless both arguments are zero.
pub proof fn lemma_gcd_nat_positive(a: nat, b: nat)
    requires
        a != 0 || b != 0,
    ensures
        gcd_nat(a, b) > 0,
    decreases b,
{
    if b != 0 {
        lemma_gcd_nat_positive(b, a % b);
    }
}

/// The greatest common divisor divides both arguments.
pub proof fn lemma_gcd_nat_divides(a: nat, b: nat)
    requires
        a != 0 || b != 0,
    ensures
        gcd_nat(a, b) > 0,
        a % gcd_nat(a, b) == 0,
        b % gcd_nat(a, b) == 0,
    decreases b,
{
    lemma_gcd_nat_positive(a, b);
    let g = gcd_nat(a, b);
    if b == 0 {
        assert(a % a == 0) by (nonlinear_arith)
            requires
                a > 0,
        ;
        assert(0nat % a == 0);
    } else {
        let r = a % b;
        lemma_gcd_nat_divides(b, r);
        assert(g == gcd_nat(b, r));
        // a == b * (a / b) + r, and g divides both b and r
        lemma_fundamental_div_mod(a as int, b as int);
        let gi = g as int;
        let kb = (b as int) / gi;
        let kr = (r as int) / gi;
        lemma_fundamental_div_mod(b as int, gi);
        lemma_fundamental_div_mod(r as int, gi);
        let q = (a as int) / (b as int);
        assert(a as int == gi * (kb * q + kr)) by (nonlinear_arith)
            requires
                a as int == (b as int) * q + (r as int),
                b as int == gi * kb,
                r as int == gi * kr,
        ;
        lemma_mod_multiples_vanish(kb * q + kr, 0, gi);
        assert(gi * (kb * q + kr) == (kb * q + kr) * gi) by (nonlinear_arith);
        assert(0int % gi == 0);
        assert((a as int) % gi == 0);
    }
}

/// Scaling both arguments scales the greatest common divisor.
pub proof fn lemma_gcd_nat_scale(k: nat, a: nat, b: nat)
    requires
        k > 0,
    ensures
        gcd_nat(k * a, k * b) == k * gcd_nat(a, b),
    decreases b,
{
    if b == 0 {
        assert(k * b == 0) by (nonlinear_arith)
            requires
                b == 0,
        ;
    } else {
        assert(k * b > 0) by (nonlinear_arith)
            requires
                k > 0,
                b > 0,
        ;
        lemma_truncate_middle(a as int, k as int, b as int);
        assert(((k * a) % (k * b)) as int == (k as int) * ((a as int) % (b as int)));
        assert((k * a) % (k * b) == k * (a % b));
        lemma_gcd_nat_scale(k, b, a % b);
    }
}

/// Scaling two integers by a positive one scales their greatest common
/// divisor.
pub proof fn lemma_gcd_scale(k: int, x: int, y: int)
    requires
        k > 0,
    ensures
        gcd(k * x, k * y) == k * gcd(x, y),
{
    assert(abs(k * x) == k * abs(x) && abs(k * y) == k * abs(y)) by (nonlinear_arith)
        requires
            k > 0,
    ;
    lemma_gcd_nat_scale(k as nat, abs(x) as nat, abs(y) as nat);
}

/// Dividing two numbers by their greatest common divisor leaves them coprime.
pub proof fn lemma_gcd_nat_coprime(a: nat, b: nat)
    requires
        a != 0 || b != 0,
    ensures
        gcd_nat(a, b) > 0,
        gcd_nat(a / gcd_nat(a, b), b / gcd_nat(a, b)) == 1,
{
    lemma_gcd_nat_divides(a, b);
    let g = gcd_nat(a, b);
    let x = a / g;
    let y = b / g;
    lemma_fundamental_div_mod(a as int, g as int);
    lemma_fundamental_div_mod(b as int, g as int);
    assert(a == g * x);
    assert(b == g * y);
    lemma_gcd_nat_scale(g, x, y);
    let h = gcd_nat(x, y);
    assert(g == g * h);
    assert(h == 1) by (nonlinear_arith)
        requires
            g == g * h,
            g > 0,
    ;
}

/// Quotient and remainder of the division toward zero add up to the
/// dividend, and the remainder is smaller than the divisor.
pub proof fn lemma_trunc_div_rem(n: int, d: int)
    requires
        d != 0,
    ensures
        n == d * trunc_div(n, d) + trunc_rem(n, d),
        abs(trunc_rem(n, d)) < abs(d),
        n >= 0 ==> trunc_rem(n, d) >= 0,
        n <= 0 ==> trunc_rem(n, d) <= 0,
        abs(trunc_rem(n, d)) == abs(n) % abs(d),
{
    let m = abs(n);
    lemma_fundamental_div_mod(m, d);
    lemma_euclid_neg_divisor(m, abs(d));
    assert(d * -(m / d) == -(d * (m / d))) by (nonlinear_arith);
}

/// Euclidean division by a negative divisor mirrors that by its positive.
pub proof fn lemma_euclid_neg_divisor(m: int, d: int)
    by (nonlinear_arith)
    requires
        d > 0,
    ensures
        m / (-d) == -(m / d),
        m % (-d) == m % d,
{
}

/// The quotient toward zero is no larger in magnitude than the dividend,
/// and has the sign that the signs of dividend and divisor give.
pub proof fn lemma_trunc_div_bounds(n: int, d: int)
    requires
        d != 0,
    ensures
        abs(trunc_div(n, d)) <= abs(n),
        (n >= 0) == (d > 0) ==> trunc_div(n, d) >= 0,
        (n >= 0) != (d > 0) ==> trunc_div(n, d) <= 0,
        abs(d) >= 2 ==> 2 * abs(trunc_div(n, d)) <= abs(n),
        d == 1 ==> trunc_div(n, d) == n,
        d == -1 ==> trunc_div(n, d) == -n,
{
    let m = abs(n);
    let e = abs(d);
    lemma_euclid_neg_divisor(m, e);
    lemma_fundamental_div_mod(m, e);
    let q = m / e;
    let r = m % e;
    assert(0 <= q <= m && (e >= 2 ==> 2 * q <= m)) by (nonlinear_arith)
        requires
            m == e * q + r,
            0 <= r < e,
            m >= 0,
            e >= 1,
    ;
    assert(e == 1 ==> q == m) by (nonlinear_arith)
        requires
            m == e * q + r,
            0 <= r < e,
    ;
}

/// How the quotient toward minus infinity relates to the one toward zero.
pub proof fn lemma_floor_from_trunc(n: int, d: int)
    requires
        d != 0,
    ensures
        trunc_rem(n, d) != 0 && (trunc_rem(n, d) < 0) != (d < 0) ==> floor_div(n, d) == trunc_div(
            n,
            d,
        ) - 1 && floor_mod(n, d) == trunc_rem(n, d) + d,
        trunc_rem(n, d) == 0 || (trunc_rem(n, d) < 0) == (d < 0) ==> floor_div(n, d) == trunc_div(
            n,
            d,
        ) && floor_mod(n, d) == trunc_rem(n, d),
{
    lemma_trunc_div_rem(n, d);
    let q = trunc_div(n, d);
    let r = trunc_rem(n, d);
    let e = abs(d);
    let s = if d > 0 {
        n
    } else {
        -n
    };
    // floor_div(n, d) == s / e, with s == e * (±q) ± r
    if r != 0 && (r < 0) != (d < 0) {
        let q1 = q - 1;
        let r1 = if d > 0 {
            r + d
        } else {
            -(r + d)
        };
        assert(s == e * q1 + r1) by (nonlinear_arith)
            requires
                n == d * q + r,
                q1 == q - 1,
                e == if d > 0 {
                    d
                } else {
                    -d
                },
                s == if d > 0 {
                    n
                } else {
                    -n
                },
                r1 == if d > 0 {
                    r + d
                } else {
                    -(r + d)
                },
        ;
        lemma_fundamental_div_mod_converse(s, e, q1, r1);
        assert(d * q1 == d * q - d) by (nonlinear_arith)
            requires
                q1 == q - 1,
        ;
    } else {
        let r1 = if d > 0 {
            r
        } else {
            -r
        };
        assert(s == e * q + r1) by (nonlinear_arith)
            requires
                n == d * q + r,
                e == if d > 0 {
                    d
                } else {
                    -d
                },
                s == if d > 0 {
                    n
                } else {
                    -n
                },
                r1 == if d > 0 {
                    r
                } else {
                    -r
                },
        ;
        lemma_fundamental_div_mod_converse(s, e, q, r1);
    }
}

/// Quotient and remainder of the division toward minus infinity add up to
/// the dividend; the remainder is zero or has the sign of the divisor.
pub proof fn lemma_floor_div_mod(n: int, d: int)
    requires
        d != 0,
    ensures
        n == d * floor_div(n, d) + floor_mod(n, d),
        abs(floor_mod(n, d)) < abs(d),
        d > 0 ==> floor_mod(n, d) >= 0,
        d < 0 ==> floor_mod(n, d) <= 0,
{
    let e = abs(d);
    let s = if d > 0 {
        n
    } else {
        -n
    };
    lemma_fundamental_div_mod(s, e);
    let q = s / e;
    assert(d * q == if d > 0 {
        e * q
    } else {
        -(e * q)
    }) by (nonlinear_arith)
        requires
            e == if d > 0 {
                d
            } else {
                -d
            },
    ;
}

/// The quotient toward minus infinity and its remainder are the only pair
/// that adds up to the dividend with a remainder on the divisor's side of zero.
pub proof fn lemma_floor_div_unique(n: int, d: int, q: int, r: int)
    requires
        d != 0,
        n == d * q + r,
        d > 0 ==> 0 <= r < d,
        d < 0 ==> d < r <= 0,
    ensures
        floor_div(n, d) == q,
        floor_mod(n, d) == r,
{
    if d > 0 {
        assert(n == q * d + r) by (nonlinear_arith)
            requires
                n == d * q + r,
        ;
        lemma_fundamental_div_mod_converse(n, d, q, r);
    } else {
        assert(-n == q * (-d) + (-r)) by (nonlinear_arith)
            requires
                n == d * q + r,
        ;
        lemma_fundamental_div_mod_converse(-n, -d, q, -r);
    }
}

/// Rounding up exceeds rounding down by one exactly where a remainder is left.
pub proof fn lemma_ceil_from_floor(n: int, d: int)
    requires
        d != 0,
    ensures
        floor_mod(n, d) == 0 ==> ceil_div(n, d) == floor_div(n, d),
        floor_mod(n, d) != 0 ==> ceil_div(n, d) == floor_div(n, d) + 1,
{
    lemma_floor_div_mod(n, d);
    let q = floor_div(n, d);
    let r = floor_mod(n, d);
    if r == 0 {
        assert(-n == d * (-q) + 0) by (nonlinear_arith)
            requires
                n == d * q + r,
                r == 0,
        ;
        lemma_floor_div_unique(-n, d, -q, 0);
    } else {
        assert(-n == d * (-q - 1) + (d - r)) by (nonlinear_arith)
            requires
                n == d * q + r,
        ;
        lemma_floor_div_unique(-n, d, -q - 1, d - r);
    }
}

/// Half of a divisor, rounded toward zero, and twice it.
pub proof fn lemma_half(d: int)
    ensures
        d % 2 == 0 ==> 2 * trunc_div(d, 2) == d,
        d % 2 != 0 && d > 0 ==> 2 * trunc_div(d, 2) + 1 == d,
        d % 2 != 0 && d < 0 ==> 2 * trunc_div(d, 2) - 1 == d,
{
}

} // verus!
