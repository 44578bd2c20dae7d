//! The confusion matrix: verified counting of prediction outcomes against the
//! true labels, exact rational metrics, and the exact accuracy comparison the
//! sweep ranks results by.

use vstd::prelude::*;
use vstd::arithmetic::mul::lemma_mul_upper_bound;

use crate::labels::Label;

verus! {

/// Why a confusion matrix could not be built.
#[derive(Clone, Copy, Debug, PartialEq, Eq, Structural)]
pub enum EvaluationError {
    /// The predictions and the ground truth do not cover the same samples.
    LabelCountMismatch,
}

/// How many positions carry the prediction `p` and the true label `a` at once.
pub open spec fn spec_count_pairs(pred: Seq<Label>, act: Seq<Label>, p: Label, a: Label) -> int
    decreases pred.len(),
{
    if pred.len() == 0 {
        0
    } else {
        spec_count_pairs(pred.drop_last(), act.drop_last(), p, a) + (
        if pred.last() == p && act[pred.len() - 1] == a {
            1int
        } else {
            0int
        })
    }
}

/// Counts of the four prediction outcomes against the test set's true labels.
/// `Accepted` is the positive class.
#[derive(Clone, Copy, Debug, PartialEq, Eq, Structural)]
pub struct ConfusionMatrix {
    pub true_positives: u64,
    pub false_positives: u64,
    pub true_negatives: u64,
    pub false_negatives: u64,
}

impl ConfusionMatrix {
    /// The number of classified samples.
    pub open spec fn spec_total(&self) -> int {
        self.true_positives + self.false_positives + self.true_negatives + self.false_negatives
    }

    /// The number of correctly classified samples.
    pub open spec fn spec_hits(&self) -> int {
        self.true_positives + self.true_negatives
    }

    /// Well-formed: the four counts add up without overflowing their type.
    pub open spec fn wf(&self) -> bool {
        self.spec_total() <= u64::MAX
    }

    /// Builds the matrix by comparing each prediction to the true label at
    /// the same position. Fails exactly when the two label vectors do not
    /// cover the same number of samples.
    pub fn from_labels(predicted: &Vec<Label>, actual: &Vec<Label>) -> (r: Result<
        ConfusionMatrix,
        EvaluationError,
    >)
        ensures
            r is Ok <==> predicted@.len() == actual@.len(),
            r matches Ok(cm) ==> {
                &&& cm.true_positives == spec_count_pairs(
                    predicted@,
                    actual@,
                    Label::Accepted,
                    Label::Accepted,
                )
                &&& cm.false_positives == spec_count_pairs(
                    predicted@,
                    actual@,
                    Label::Accepted,
                    Label::Denied,
                )
                &&& cm.true_negatives == spec_count_pairs(
                    predicted@,
                    actual@,
                    Label::Denied,
                    Label::Denied,
                )
                &&& cm.false_negatives == spec_count_pairs(
                    predicted@,
                    actual@,
                    Label::Denied,
                    Label::Accepted,
                )
                &&& cm.spec_total() == predicted@.len()
                &&& cm.wf()
            },
            r matches Err(e) ==> e == EvaluationError::LabelCountMismatch,
    {
        if predicted.len() != actual.len() {
            return Err(EvaluationError::LabelCountMismatch);
        }
        let mut tp: u64 = 0;
        let mut fp: u64 = 0;
        let mut tn: u64 = 0;
        let mut fn_: u64 = 0;
        let mut i: usize = 0;
        while i < predicted.len()
            invariant
                predicted@.len() == actual@.len(),
                i <= predicted@.len(),
                tp + fp + tn + fn_ == i,
                tp == spec_count_pairs(
                    predicted@.take(i as int),
                    actual@.take(i as int),
                    Label::Accepted,
                    Label::Accepted,
                ),
                fp == spec_count_pairs(
                    predicted@.take(i as int),
                    actual@.take(i as int),
                    Label::Accepted,
                    Label::Denied,
                ),
                tn == spec_count_pairs(
                    predicted@.take(i as int),
                    actual@.take(i as int),
                    Label::Denied,
                    Label::Denied,
                ),
                fn_ == spec_count_pairs(
                    predicted@.take(i as int),
                    actual@.take(i as int),
                    Label::Denied,
                    Label::Accepted,
                ),
            decreases predicted@.len() - i,
        {
            proof {
                assert(predicted@.take(i + 1).drop_last() =~= predicted@.take(i as int));
                assert(actual@.take(i + 1).drop_last() =~= actual@.take(i as int));
            }
            let p = predicted[i];
            let a = actual[i];
            if p == Label::Accepted && a == Label::Accepted {
                tp = tp + 1;
            } else if p == Label::Accepted {
                fp = fp + 1;
            } else if a == Label::Denied {
                tn = tn + 1;
            } else {
                fn_ = fn_ + 1;
            }
            i = i + 1;
        }
        proof {
            assert(predicted@.take(predicted@.len() as int) =~= predicted@);
            assert(actual@.take(actual@.len() as int) =~= actual@);
        }
        Ok(
            ConfusionMatrix {
                true_positives: tp,
                false_positives: fp,
                true_negatives: tn,
                false_negatives: fn_,
            },
        )
    }

    /// The number of classified samples.
    pub fn total(&self) -> (t: u64)
        requires
            self.wf(),
        ensures
            t == self.spec_total(),
    {
        self.true_positives + self.false_positives + self.true_negatives + self.false_negatives
    }

    /// Accuracy as an exact ratio: correctly classified samples over all
    /// classified samples. The quotient is left to the caller, so the ratio
    /// carries no rounding; a zero denominator means the metric is undefined.
    pub fn accuracy_parts(&self) -> (r: (u64, u64))
        requires
            self.wf(),
        ensures
            r.0 == self.spec_hits(),
            r.1 == self.spec_total(),
    {
        (self.true_positives + self.true_negatives, self.total())
    }

    /// Precision as an exact ratio: true positives over predicted positives.
    /// `None` exactly when nothing was predicted positive, where the metric
    /// is undefined.
    pub fn precision_parts(&self) -> (r: Option<(u64, u64)>)
        requires
            self.wf(),
        ensures
            r is Some <==> self.true_positives + self.false_positives > 0,
            r matches Some(p) ==> p.0 == self.true_positives && p.1 == self.true_positives
                + self.false_positives,
    {
        if self.true_positives == 0 && self.false_positives == 0 {
            None
        } else {
            Some((self.true_positives, self.true_positives + self.false_positives))
        }
    }

    /// Recall as an exact ratio: true positives over actually positive
    /// samples. `None` exactly when no sample is actually positive, where the
    /// metric is undefined.
    pub fn recall_parts(&self) -> (r: Option<(u64, u64)>)
        requires
            self.wf(),
        ensures
            r is Some <==> self.true_positives + self.false_negatives > 0,
            r matches Some(p) ==> p.0 == self.true_positives && p.1 == self.true_positives
                + self.false_negatives,
    {
        if self.true_positives == 0 && self.false_negatives == 0 {
            None
        } else {
            Some((self.true_positives, self.true_positives + self.false_negatives))
        }
    }

    /// Whether this matrix has strictly higher accuracy than `other`,
    /// compared exactly by cross-multiplying the two ratios.
    pub fn accuracy_gt(&self, other: &ConfusionMatrix) -> (r: bool)
        requires
            self.wf(),
            other.wf(),
        ensures
            r == spec_accuracy_gt(*self, *other),
    {
        proof {
            lemma_mul_upper_bound(
                self.spec_hits(),
                u64::MAX as int,
                other.spec_total(),
                u64::MAX as int,
            );
            lemma_mul_upper_bound(
                other.spec_hits(),
                u64::MAX as int,
                self.spec_total(),
                u64::MAX as int,
            );
        }
        let lhs: u128 = (self.true_positives as u128 + self.true_negatives as u128) * (
        other.total() as u128);
        let rhs: u128 = (other.true_positives as u128 + other.true_negatives as u128) * (
        self.total() as u128);
        lhs > rhs
    }
}

/// Exact comparison of two accuracies by cross-multiplication: `a`'s hit
/// ratio is strictly greater than `b`'s. A matrix with no classified samples
/// has an undefined accuracy and never compares strictly greater than
/// anything, and nothing compares strictly greater than it.
pub open spec fn spec_accuracy_gt(a: ConfusionMatrix, b: ConfusionMatrix) -> bool {
    a.spec_hits() * b.spec_total() > b.spec_hits() * a.spec_total()
}

/// Exact comparison of two accuracies by cross-multiplication: `a`'s hit
/// ratio is at least `b`'s.
pub open spec fn spec_accuracy_ge(a: ConfusionMatrix, b: ConfusionMatrix) -> bool {
    a.spec_hits() * b.spec_total() >= b.spec_hits() * a.spec_total()
}

/// A matrix that compares strictly greater than another classified at least
/// one sample: an empty matrix's hit ratio never wins a strict comparison.
pub proof fn lemma_accuracy_gt_nonempty(b: ConfusionMatrix, c: ConfusionMatrix)
    requires
        spec_accuracy_gt(b, c),
    ensures
        b.spec_total() > 0,
{
    if b.spec_total() == 0 {
        assert(b.spec_hits() == 0);
        assert(false) by (nonlinear_arith)
            requires
                b.spec_hits() * c.spec_total() > c.spec_hits() * b.spec_total(),
                b.spec_total() == 0,
                b.spec_hits() == 0,
                c.spec_hits() >= 0,
                c.spec_total() >= 0,
        ;
    }
}

/// The accuracy order chains across a strict improvement: at least as good
/// as `b`, which is strictly better than `c`, is at least as good as `c`.
pub proof fn lemma_accuracy_ge_gt_trans(a: ConfusionMatrix, b: ConfusionMatrix, c: ConfusionMatrix)
    requires
        spec_accuracy_ge(a, b),
        spec_accuracy_gt(b, c),
    ensures
        spec_accuracy_ge(a, c),
{
    let ha = a.spec_hits();
    let hb = b.spec_hits();
    let hc = c.spec_hits();
    let ta = a.spec_total();
    let tb = b.spec_total();
    let tc = c.spec_total();
    lemma_accuracy_gt_nonempty(b, c);
    assert(ha * tc >= hc * ta) by (nonlinear_arith)
        requires
            ha * tb >= hb * ta,
            hb * tc > hc * tb,
            tb > 0,
            ta >= 0,
            tc >= 0,
            ha >= 0,
            hb >= 0,
            hc >= 0,
    ;
}

} // verus!
