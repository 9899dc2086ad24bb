//! Hashing that agrees with equality: a ratio is hashed by the terms of its
//! continued fraction, which every fraction of the same value shares.

use vstd::prelude::*;
use std::hash::{Hash, Hasher};
use crate::backing::{Arith, Backing};
use crate::fraction::Fraction;
use crate::math::{abs, floor_div, floor_mod, lemma_floor_div_mod};
use crate::ratio::Ratio;

verus! {

/// The integers that a sequence of backing values stands for.
pub open spec fn values<T: Arith>(s: Seq<T>) -> Seq<int> {
    Seq::new(s.len(), |i: int| s[i].val())
}

impl<T: Backing> Ratio<T> {
    /// The terms that `hash_terms` gives for a fraction.
    ///
    /// They are the quotients toward minus infinity of the continued
    /// fraction: the quotient of `f`, then the terms of the denominator
    /// over the remainder, down to a remainder of zero, which is the last
    /// term. Where a quotient has no place in `T`, the numerator and the
    /// denominator that it would come from end the sequence in its place.
    pub open spec fn hash_model(f: Fraction) -> Seq<int>
        decreases abs(f.den),
    {
        if f.den == 0 {
            seq![0int]
        } else if !T::fits(floor_div(f.num, f.den)) {
            seq![f.num, f.den]
        } else {
            proof {
                lemma_floor_div_mod(f.num, f.den);
            }
            seq![floor_div(f.num, f.den)] + Self::hash_model(
                Fraction { num: f.den, den: floor_mod(f.num, f.den) },
            )
        }
    }

    /// The terms to feed to a hasher, so that ratios of equal value hash
    /// alike whether they are reduced or not.
    pub fn hash_terms(&self) -> (r: Vec<T>)
        ensures
            values(r@) == Self::hash_model(self@),
    {
        let mut terms: Vec<T> = Vec::new();
        let mut n = self.numer().dup();
        let mut d = self.denom().dup();
        loop
            invariant
                values(terms@) + Self::hash_model(Fraction { num: n.val(), den: d.val() })
                    == Self::hash_model(self@),
            decreases abs(d.val()),
        {
            let ghost before = values(terms@);
            let ghost f = Fraction { num: n.val(), den: d.val() };
            if d.is_zero() {
                terms.push(d);
                assert(values(terms@) == before + seq![0int]);
                return terms;
            }
            proof {
                lemma_floor_div_mod(f.num, f.den);
            }
            match n.checked_div_mod_floor(&d) {
                None => {
                    terms.push(n);
                    terms.push(d);
                    assert(values(terms@) == before + seq![f.num, f.den]);
                    return terms;
                },
                Some((q, rem)) => {
                    terms.push(q);
                    assert(values(terms@) == before + seq![floor_div(f.num, f.den)]);
                    n = d;
                    d = rem;
                },
            }
        }
    }
}

/// `Hash::hash` of the standard library, for one term.
#[verifier::external_body]
fn feed<T: Hash, H: Hasher>(term: &T, state: &mut H) {
    term.hash(state)
}

impl<T: Backing + Hash> Hash for Ratio<T> {
    fn hash<H: Hasher>(&self, state: &mut H) {
        let terms = self.hash_terms();
        let mut i: usize = 0;
        while i < terms.len()
            invariant
                i <= terms.len(),
            decreases terms.len() - i,
        {
            feed(&terms[i], state);
            i = i + 1;
        }
    }
}

} // verus!
