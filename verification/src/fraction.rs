//! The mathematical model of a ratio: a pair of integers.

use vstd::prelude::*;
use crate::math::{abs, gcd, lemma_gcd_nat_coprime, lemma_gcd_nat_divides, lemma_gcd_scale};
use vstd::arithmetic::div_mod::lemma_fundamental_div_mod;

verus! {

/// A numerator and a denominator, as mathematical integers. The pair need
/// not be in lowest terms, and the denominator may be negative.
pub struct Fraction {
    pub num: int,
    pub den: int,
}

impl Fraction {
    /// The fraction `v / 1`.
    pub open spec fn integer(v: int) -> Fraction {
        Fraction { num: v, den: 1 }
    }

    /// Lowest terms with a positive denominator.
    pub open spec fn is_reduced(self) -> bool {
        self.den > 0 && gcd(self.num, self.den) == 1
    }

    /// The same value in lowest terms with a positive denominator: both
    /// parts divided by their greatest common divisor, and both negated
    /// where the denominator was negative.
    pub open spec fn reduced(self) -> Fraction {
        let g = gcd(self.num, self.den);
        if self.den < 0 {
            Fraction { num: -(self.num / g), den: -(self.den / g) }
        } else {
            Fraction { num: self.num / g, den: self.den / g }
        }
    }

    /// Whether two fractions stand for the same rational number.
    pub open spec fn same_value(self, other: Fraction) -> bool {
        self.num * other.den == other.num * self.den
    }

    /// Whether `self` stands for a smaller rational number than `other`.
    pub open spec fn value_lt(self, other: Fraction) -> bool {
        if (self.den > 0) == (other.den > 0) {
            self.num * other.den < other.num * self.den
        } else {
            self.num * other.den > other.num * self.den
        }
    }

    /// Numerator and denominator exchanged, and both negated where that
    /// keeps a negative sign out of the denominator.
    pub open spec fn reciprocal(self) -> Fraction {
        if self.num < 0 {
            Fraction { num: -self.den, den: -self.num }
        } else {
            Fraction { num: self.den, den: self.num }
        }
    }

    /// The negated fraction `-a/b`.
    pub open spec fn negated(self) -> Fraction {
        Fraction { num: -self.num, den: self.den }
    }

    /// The unreduced sum `(a*d + b*c) / (b*d)`.
    pub open spec fn sum(self, other: Fraction) -> Fraction {
        Fraction { num: self.num * other.den + self.den * other.num, den: self.den * other.den }
    }

    /// The unreduced difference `(a*d - b*c) / (b*d)`.
    pub open spec fn difference(self, other: Fraction) -> Fraction {
        Fraction { num: self.num * other.den - self.den * other.num, den: self.den * other.den }
    }

    /// The unreduced product `(a*c) / (b*d)`.
    pub open spec fn product(self, other: Fraction) -> Fraction {
        Fraction { num: self.num * other.num, den: self.den * other.den }
    }

    /// The unreduced quotient `(a*d) / (b*c)`.
    pub open spec fn quotient(self, other: Fraction) -> Fraction {
        Fraction { num: self.num * other.den, den: self.den * other.num }
    }
}

/// Facts about `reduced`: the greatest common divisor that it divides by is
/// positive and divides both parts, and the result is in lowest terms.
pub proof fn lemma_reduced(f: Fraction)
    requires
        f.den != 0,
    ensures
        gcd(f.num, f.den) > 0,
        gcd(f.num, f.den) <= abs(f.den),
        f.num % gcd(f.num, f.den) == 0,
        f.den % gcd(f.num, f.den) == 0,
        abs(f.num) % gcd(f.num, f.den) == 0,
        abs(f.den) % gcd(f.num, f.den) == 0,
        f.num == gcd(f.num, f.den) * (f.num / gcd(f.num, f.den)),
        f.den == gcd(f.num, f.den) * (f.den / gcd(f.num, f.den)),
        f.reduced().is_reduced(),
        f.reduced().same_value(f),
{
    let a = abs(f.num) as nat;
    let b = abs(f.den) as nat;
    lemma_gcd_nat_coprime(a, b);
    lemma_gcd_nat_divides(a, b);
    let g = gcd(f.num, f.den);
    lemma_fundamental_div_mod(a as int, g);
    lemma_fundamental_div_mod(b as int, g);
    lemma_fundamental_div_mod(f.num, g);
    lemma_fundamental_div_mod(f.den, g);
    let x = (a as int) / g;
    let y = (b as int) / g;
    assert(y > 0 && g <= b) by (nonlinear_arith)
        requires
            b as int == g * y,
            b > 0,
            g > 0,
    ;
    lemma_exact_div_abs(f.num, g);
    lemma_exact_div_abs(f.den, g);
    let r = f.reduced();
    assert(abs(r.num) == x);
    assert(abs(r.den) == y);
    let n1 = f.num / g;
    let d1 = f.den / g;
    assert(f.num * d1 == n1 * f.den) by (nonlinear_arith)
        requires
            f.num == g * n1,
            f.den == g * d1,
    ;
    assert(f.num * -d1 == -n1 * f.den) by (nonlinear_arith)
        requires
            f.num * d1 == n1 * f.den,
    ;
}

/// Dividing exactly commutes with the absolute value.
pub proof fn lemma_exact_div_abs(v: int, g: int)
    requires
        g > 0,
        abs(v) % g == 0,
    ensures
        v % g == 0,
        abs(v / g) == abs(v) / g,
        v < 0 ==> v / g < 0,
        v > 0 ==> v / g > 0,
        v == 0 ==> v / g == 0,
{
    lemma_fundamental_div_mod(abs(v), g);
    let k = abs(v) / g;
    if v < 0 {
        assert(v == (-k) * g + 0) by (nonlinear_arith)
            requires
                -v == g * k,
        ;
        vstd::arithmetic::div_mod::lemma_fundamental_div_mod_converse(v, g, -k, 0);
        assert(k > 0) by (nonlinear_arith)
            requires
                -v == g * k,
                v < 0,
                g > 0,
        ;
    } else if v > 0 {
        assert(k > 0) by (nonlinear_arith)
            requires
                v == g * k,
                v > 0,
                g > 0,
        ;
    } else {
        assert(k == 0) by (nonlinear_arith)
            requires
                0 == g * k,
                g > 0,
        ;
    }
}

/// Two fractions in lowest terms that have the same value are the same.
pub proof fn lemma_same_value_reduced(a: Fraction, b: Fraction)
    requires
        a.is_reduced(),
        b.is_reduced(),
        a.same_value(b),
    ensures
        a == b,
{
    // a scaled by b.den and b scaled by a.den are one pair, whose greatest
    // common divisor is b.den as well as a.den
    lemma_gcd_scale(b.den, a.num, a.den);
    lemma_gcd_scale(a.den, b.num, b.den);
    assert(b.den * a.num == a.num * b.den && a.den * b.num == b.num * a.den && b.den * a.den
        == a.den * b.den) by (nonlinear_arith);
    assert(a.den == b.den);
    assert(a.num == b.num) by (nonlinear_arith)
        requires
            a.num * b.den == b.num * a.den,
            a.den == b.den,
            a.den > 0,
    ;
}

/// Having the same value carries over from one fraction to the next.
pub proof fn lemma_same_value_transitive(a: Fraction, b: Fraction, c: Fraction)
    requires
        b.den != 0,
        a.same_value(b),
        b.same_value(c),
    ensures
        a.same_value(c),
{
    let x = a.num * c.den - c.num * a.den;
    assert(b.den * x == 0) by (nonlinear_arith)
        requires
            a.num * b.den == b.num * a.den,
            b.num * c.den == c.num * b.den,
            x == a.num * c.den - c.num * a.den,
    ;
    assert(x == 0) by (nonlinear_arith)
        requires
            b.den * x == 0,
            b.den != 0,
    ;
}

/// Fractions of the same value have the same lowest terms.
pub proof fn lemma_same_value_same_reduced(a: Fraction, b: Fraction)
    requires
        a.den != 0,
        b.den != 0,
        a.same_value(b),
    ensures
        a.reduced() == b.reduced(),
{
    lemma_reduced(a);
    lemma_reduced(b);
    let (ra, rb) = (a.reduced(), b.reduced());
    assert(a.same_value(ra)) by {
        assert(ra.num * a.den == a.num * ra.den);
    }
    lemma_same_value_transitive(ra, a, b);
    lemma_same_value_transitive(ra, b, rb);
    lemma_same_value_reduced(ra, rb);
}

/// Reducing a fraction that is in lowest terms changes nothing.
pub proof fn lemma_reduced_fixed(f: Fraction)
    requires
        f.is_reduced(),
    ensures
        f.reduced() == f,
{
    assert(f.num / 1 == f.num);
    assert(f.den / 1 == f.den);
}

} // verus!
