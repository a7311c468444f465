//! Held-out evaluation: binarization at the zero threshold and the
//! misclassification figure.

use vstd::prelude::*;
use crate::bits::spec_binarize;
use crate::bits::spec_in_unit;
use crate::bits::spec_is_nan;
use crate::bits::binarize;
use crate::engine::Arith;

verus! {

/// How many positions of the two equally long sequences disagree after
/// binarizing both at the zero threshold.
pub open spec fn spec_mismatches(preds: Seq<u64>, labels: Seq<u64>) -> int
    decreases preds.len(),
{
    if preds.len() == 0 {
        0
    } else {
        spec_mismatches(preds.drop_last(), labels.drop_last()) + if spec_binarize(preds.last())
            != spec_binarize(labels.last()) {
            1int
        } else {
            0int
        }
    }
}

/// The mismatch count never exceeds the length.
pub proof fn lemma_mismatches_le_len(preds: Seq<u64>, labels: Seq<u64>)
    ensures
        0 <= spec_mismatches(preds, labels) <= preds.len(),
    decreases preds.len(),
{
    if preds.len() > 0 {
        lemma_mismatches_le_len(preds.drop_last(), labels.drop_last());
    }
}

/// Counts the positions where the binarized prediction disagrees with the
/// binarized ground-truth label.
pub fn count_mismatches(preds: &Vec<u64>, labels: &Vec<u64>) -> (k: usize)
    requires
        preds@.len() == labels@.len(),
    ensures
        k == spec_mismatches(preds@, labels@),
        k <= preds@.len(),
{
    let mut k: usize = 0;
    let mut i: usize = 0;
    while i < preds.len()
        invariant
            preds@.len() == labels@.len(),
            i <= preds@.len(),
            k == spec_mismatches(preds@.take(i as int), labels@.take(i as int)),
            k <= i,
        decreases preds@.len() - i,
    {
        if binarize(preds[i]) != binarize(labels[i]) {
            k = k + 1;
        }
        i = i + 1;
        proof {
            assert(preds@.take(i as int).drop_last() =~= preds@.take(i - 1));
            assert(labels@.take(i as int).drop_last() =~= labels@.take(i - 1));
            assert(preds@.take(i as int).last() == preds@[i - 1]);
            assert(labels@.take(i as int).last() == labels@[i - 1]);
        }
    }
    proof {
        assert(preds@.take(preds@.len() as int) =~= preds@);
        assert(labels@.take(labels@.len() as int) =~= labels@);
    }
    k
}

/// The held-out evaluation figure: one minus the misclassified fraction of
/// the binarized predictions against the binarized labels.
///
/// The figure keeps its historical name although the computed quantity is
/// the accuracy, not the error: callers depend on the value as computed.
/// With a non-empty test set the figure lies in the unit interval; the
/// figure for an empty test set is a NaN, mirroring the empty quotient.
pub fn classification_error<A: Arith>(arith: &A, preds: &Vec<u64>, labels: &Vec<u64>) -> (r: u64)
    requires
        preds@.len() == labels@.len(),
    ensures
        r == arith.one_minus_ratio_spec(
            spec_mismatches(preds@, labels@) as usize,
            preds@.len() as usize,
        ),
        preds@.len() > 0 ==> spec_in_unit(r),
        preds@.len() == 0 ==> spec_is_nan(r),
{
    proof {
        lemma_mismatches_le_len(preds@, labels@);
    }
    let k = count_mismatches(preds, labels);
    arith.one_minus_ratio(k, preds.len())
}

} // verus!
