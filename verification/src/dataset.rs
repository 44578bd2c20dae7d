//! The labeled two-feature dataset and its construction from parsed rows.
//!
//! A feature value is carried as the raw 64-bit word of the numeric column it
//! came from. The library never interprets those words numerically: they are
//! stored, counted, partitioned by class, and handed back unchanged. The
//! numeric reading belongs to the callers that parse the input and fit the
//! model.

use vstd::prelude::*;

use crate::labels::Label;
use crate::labels::spec_label_of;
use crate::labels::label_of_numeric;

verus! {

/// One parsed input row: the two feature words and the numeric class value of
/// the third column, truncated to an integer.
#[derive(Clone, Copy, Debug, PartialEq, Eq, Structural)]
pub struct Row {
    pub feature1: u64,
    pub feature2: u64,
    pub class_value: u64,
}

/// The feature pairs a row sequence carries, in row order.
pub open spec fn spec_records_of(rows: Seq<Row>) -> Seq<(u64, u64)> {
    rows.map_values(|r: Row| (r.feature1, r.feature2))
}

/// The symbolic labels a row sequence carries, in row order.
pub open spec fn spec_targets_of(rows: Seq<Row>) -> Seq<Label> {
    rows.map_values(|r: Row| spec_label_of(r.class_value))
}

/// An ordered sequence of samples: a feature pair per sample and a symbolic
/// label per sample, with matching lengths.
pub struct Dataset {
    records: Vec<(u64, u64)>,
    targets: Vec<Label>,
}

impl Dataset {
    /// The feature pairs, in sample order.
    pub closed spec fn records_seq(&self) -> Seq<(u64, u64)> {
        self.records@
    }

    /// The labels, in sample order.
    pub closed spec fn targets_seq(&self) -> Seq<Label> {
        self.targets@
    }

    /// Well-formed: one label per feature pair.
    pub open spec fn wf(&self) -> bool {
        self.records_seq().len() == self.targets_seq().len()
    }

    /// Builds the dataset from parsed rows: one sample per row, in row order,
    /// each row's class value mapped to its symbolic label.
    pub fn from_rows(rows: &Vec<Row>) -> (d: Dataset)
        ensures
            d.wf(),
            d.records_seq() == spec_records_of(rows@),
            d.targets_seq() == spec_targets_of(rows@),
    {
        let mut records: Vec<(u64, u64)> = Vec::new();
        let mut targets: Vec<Label> = Vec::new();
        let mut i: usize = 0;
        while i < rows.len()
            invariant
                i <= rows@.len(),
                records@ =~= spec_records_of(rows@.take(i as int)),
                targets@ =~= spec_targets_of(rows@.take(i as int)),
            decreases rows@.len() - i,
        {
            let r = rows[i];
            records.push((r.feature1, r.feature2));
            targets.push(label_of_numeric(r.class_value));
            i = i + 1;
        }
        proof {
            assert(rows@.take(rows@.len() as int) =~= rows@);
            assert(records@ =~= spec_records_of(rows@));
            assert(targets@ =~= spec_targets_of(rows@));
        }
        Dataset { records, targets }
    }

    /// The number of samples.
    pub fn nsamples(&self) -> (n: usize)
        requires
            self.wf(),
        ensures
            n == self.records_seq().len(),
            n == self.targets_seq().len(),
    {
        self.records.len()
    }

    /// The number of feature columns of every sample.
    pub fn nfeatures(&self) -> (n: usize)
        ensures
            n == 2,
    {
        2
    }

    /// The number of target columns of every sample.
    pub fn ntargets(&self) -> (n: usize)
        ensures
            n == 1,
    {
        1
    }

    /// The fixed names of the two feature columns, for labeling and
    /// plotting; the names take no part in any computation.
    pub fn feature_names(&self) -> (r: (&'static str, &'static str))
        ensures
            r.0@ == "test 1"@,
            r.1@ == "test 2"@,
    {
        ("test 1", "test 2")
    }

    /// The feature pairs, in sample order.
    pub fn records(&self) -> (r: &Vec<(u64, u64)>)
        ensures
            r@ == self.records_seq(),
    {
        &self.records
    }

    /// The labels, in sample order.
    pub fn targets(&self) -> (r: &Vec<Label>)
        ensures
            r@ == self.targets_seq(),
    {
        &self.targets
    }
}

/// The feature pairs of the positively labeled samples, in sample order.
pub open spec fn spec_partition_pos(records: Seq<(u64, u64)>, targets: Seq<Label>) -> Seq<(u64, u64)>
    decreases records.len(),
{
    if records.len() == 0 {
        Seq::empty()
    } else {
        let prefix = spec_partition_pos(records.drop_last(), targets.drop_last());
        if targets[records.len() - 1] == Label::Accepted {
            prefix.push(records.last())
        } else {
            prefix
        }
    }
}

/// The feature pairs of the samples not labeled positive, in sample order.
pub open spec fn spec_partition_neg(records: Seq<(u64, u64)>, targets: Seq<Label>) -> Seq<(u64, u64)>
    decreases records.len(),
{
    if records.len() == 0 {
        Seq::empty()
    } else {
        let prefix = spec_partition_neg(records.drop_last(), targets.drop_last());
        if targets[records.len() - 1] != Label::Accepted {
            prefix.push(records.last())
        } else {
            prefix
        }
    }
}

impl Dataset {
    /// Splits the samples into the two plotted groups: the feature pairs of
    /// the `Accepted` samples first, the rest second, each in sample order.
    pub fn partition(&self) -> (r: (Vec<(u64, u64)>, Vec<(u64, u64)>))
        requires
            self.wf(),
        ensures
            r.0@ == spec_partition_pos(self.records_seq(), self.targets_seq()),
            r.1@ == spec_partition_neg(self.records_seq(), self.targets_seq()),
    {
        let mut pos: Vec<(u64, u64)> = Vec::new();
        let mut neg: Vec<(u64, u64)> = Vec::new();
        let mut i: usize = 0;
        while i < self.records.len()
            invariant
                self.wf(),
                i <= self.records_seq().len(),
                pos@ =~= spec_partition_pos(
                    self.records_seq().take(i as int),
                    self.targets_seq().take(i as int),
                ),
                neg@ =~= spec_partition_neg(
                    self.records_seq().take(i as int),
                    self.targets_seq().take(i as int),
                ),
            decreases self.records_seq().len() - i,
        {
            proof {
                assert(self.records_seq().take(i + 1).drop_last() =~= self.records_seq().take(
                    i as int,
                ));
                assert(self.targets_seq().take(i + 1).drop_last() =~= self.targets_seq().take(
                    i as int,
                ));
            }
            let rec = self.records[i];
            if self.targets[i] == Label::Accepted {
                pos.push(rec);
            } else {
                neg.push(rec);
            }
            i = i + 1;
        }
        proof {
            assert(self.records_seq().take(self.records_seq().len() as int)
                =~= self.records_seq());
            assert(self.targets_seq().take(self.targets_seq().len() as int)
                =~= self.targets_seq());
        }
        (pos, neg)
    }
}

/// Every sample lands in exactly one of the two plotted groups: the group
/// sizes add up to the sample count.
pub proof fn lemma_partition_sizes(records: Seq<(u64, u64)>, targets: Seq<Label>)
    requires
        records.len() == targets.len(),
    ensures
        spec_partition_pos(records, targets).len() + spec_partition_neg(records, targets).len()
            == records.len(),
    decreases records.len(),
{
    if records.len() > 0 {
        lemma_partition_sizes(records.drop_last(), targets.drop_last());
    }
}

/// Loading equal row sequences yields equal datasets: a dataset is a function
/// of the parsed rows alone, so loading the same input twice gives the same
/// records and the same targets.
pub proof fn lemma_from_rows_deterministic(d1: Dataset, d2: Dataset, rows: Seq<Row>)
    requires
        d1.records_seq() == spec_records_of(rows),
        d1.targets_seq() == spec_targets_of(rows),
        d2.records_seq() == spec_records_of(rows),
        d2.targets_seq() == spec_targets_of(rows),
    ensures
        d1.records_seq() == d2.records_seq(),
        d1.targets_seq() == d2.targets_seq(),
{
}

/// Decides whether two datasets hold the same samples: the same feature pairs
/// and the same labels, in the same order.
pub fn datasets_equal(a: &Dataset, b: &Dataset) -> (r: bool)
    ensures
        r == (a.records_seq() == b.records_seq() && a.targets_seq() == b.targets_seq()),
{
    let a_records = a.records();
    let b_records = b.records();
    let a_targets = a.targets();
    let b_targets = b.targets();
    if a_records.len() != b_records.len() || a_targets.len() != b_targets.len() {
        return false;
    }
    let mut i: usize = 0;
    while i < a_records.len()
        invariant
            a_records@ == a.records_seq(),
            b_records@ == b.records_seq(),
            a_records@.len() == b_records@.len(),
            i <= a_records@.len(),
            forall|j: int| 0 <= j < i ==> a_records@[j] == b_records@[j],
        decreases a_records@.len() - i,
    {
        let (ax, ay) = a_records[i];
        let (bx, by) = b_records[i];
        if ax != bx || ay != by {
            return false;
        }
        proof {
            assert(a_records@[i as int] == b_records@[i as int]);
        }
        i = i + 1;
    }
    let mut k: usize = 0;
    while k < a_targets.len()
        invariant
            a_targets@ == a.targets_seq(),
            b_targets@ == b.targets_seq(),
            a_targets@.len() == b_targets@.len(),
            k <= a_targets@.len(),
            forall|j: int| 0 <= j < k ==> a_targets@[j] == b_targets@[j],
        decreases a_targets@.len() - k,
    {
        if a_targets[k] != b_targets[k] {
            return false;
        }
        k = k + 1;
    }
    proof {
        assert(a.records_seq() =~= b.records_seq());
        assert(a.targets_seq() =~= b.targets_seq());
    }
    true
}

} // verus!
