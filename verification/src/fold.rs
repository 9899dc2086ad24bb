//! Sums and products of many ratios.

use vstd::prelude::*;
use crate::backing::Backing;
use crate::fraction::Fraction;
use crate::ratio::Ratio;

verus! {

/// The fractions that a sequence of ratios stands for.
pub open spec fn fractions<T: Backing>(s: Seq<Ratio<T>>) -> Seq<Fraction> {
    Seq::new(s.len(), |i: int| s[i]@)
}

/// The sum of a sequence of fractions, added up from the left and reduced
/// after every addition; zero for none.
pub open spec fn sum_model(s: Seq<Fraction>) -> Fraction
    decreases s.len(),
{
    if s.len() == 0 {
        Fraction::integer(0)
    } else {
        sum_model(s.drop_last()).sum(s.last()).reduced()
    }
}

/// The product of a sequence of fractions, multiplied from the left and
/// reduced after every multiplication; one for none.
pub open spec fn product_model(s: Seq<Fraction>) -> Fraction
    decreases s.len(),
{
    if s.len() == 0 {
        Fraction::integer(1)
    } else {
        product_model(s.drop_last()).product(s.last()).reduced()
    }
}

impl<T: Backing> Ratio<T> {
    /// Whether `T` has room for every addition on the way to the sum.
    pub open spec fn can_sum(s: Seq<Fraction>) -> bool {
        forall|k: int|
            0 <= k < s.len() ==> Self::can_add(#[trigger] sum_model(s.subrange(0, k)), s[k])
    }

    /// Whether `T` has room for every multiplication on the way to the
    /// product.
    pub open spec fn can_multiply(s: Seq<Fraction>) -> bool {
        forall|k: int|
            0 <= k < s.len() ==> Self::can_mul(#[trigger] product_model(s.subrange(0, k)), s[k])
    }

    /// The sum of the ratios in `items`.
    pub fn sum_of(items: &[Ratio<T>]) -> (r: Ratio<T>)
        requires
            Self::can_sum(fractions(items@)),
        ensures
            r@ == sum_model(fractions(items@)),
    {
        let ghost all = fractions(items@);
        let mut total = Ratio::zero();
        let mut i: usize = 0;
        assert(all.subrange(0, 0) =~= Seq::<Fraction>::empty());
        while i < items.len()
            invariant
                i <= items.len(),
                all == fractions(items@),
                Self::can_sum(all),
                total@ == sum_model(all.subrange(0, i as int)),
            decreases items.len() - i,
        {
            proof {
                let next = all.subrange(0, i + 1);
                assert(next.drop_last() =~= all.subrange(0, i as int));
                assert(next.last() == all[i as int]);
            }
            total = total + items[i].clone();
            i = i + 1;
        }
        assert(all.subrange(0, i as int) =~= all);
        total
    }

    /// The product of the ratios in `items`.
    pub fn product_of(items: &[Ratio<T>]) -> (r: Ratio<T>)
        requires
            Self::can_multiply(fractions(items@)),
        ensures
            r@ == product_model(fractions(items@)),
    {
        let ghost all = fractions(items@);
        let mut total = Ratio::one();
        let mut i: usize = 0;
        assert(all.subrange(0, 0) =~= Seq::<Fraction>::empty());
        while i < items.len()
            invariant
                i <= items.len(),
                all == fractions(items@),
                Self::can_multiply(all),
                total@ == product_model(all.subrange(0, i as int)),
            decreases items.len() - i,
        {
            proof {
                let next = all.subrange(0, i + 1);
                assert(next.drop_last() =~= all.subrange(0, i as int));
                assert(next.last() == all[i as int]);
            }
            total = total * items[i].clone();
            i = i + 1;
        }
        assert(all.subrange(0, i as int) =~= all);
        total
    }
}

} // verus!
