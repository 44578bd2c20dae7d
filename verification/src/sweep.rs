//! The hyperparameter grid and the running best of the sweep.
//!
//! A threshold is carried in hundredths, so the grid is exact: the decision
//! threshold `t` hundredths stands for the ratio `t / 100`. The grid walks
//! `max_iterations` over 1000, 1500, ... 4500 and, within each, the
//! threshold over 0.02, 0.03, ... 0.99, in that nested order.

use vstd::prelude::*;
use vstd::arithmetic::div_mod::lemma_fundamental_div_mod_converse;

use crate::confusion::ConfusionMatrix;
use crate::confusion::lemma_accuracy_ge_gt_trans;
use crate::confusion::spec_accuracy_ge;
use crate::confusion::spec_accuracy_gt;

verus! {

/// One hyperparameter pair of the sweep: the iteration cap handed to the
/// optimizer, and the decision threshold in hundredths.
#[derive(Clone, Copy, Debug, PartialEq, Eq, Structural)]
pub struct GridPoint {
    pub max_iterations: u64,
    pub threshold_hundredths: u64,
}

/// The hyperparameter pair that seeds the running best: one hundredth as the
/// threshold and one hundred iterations, evaluated once before the grid.
pub fn baseline_point() -> (p: GridPoint)
    ensures
        p == (GridPoint { max_iterations: 100, threshold_hundredths: 1 }),
{
    GridPoint { max_iterations: 100, threshold_hundredths: 1 }
}

/// Builds the full grid, in sweep order: eight `max_iterations` values, 1000
/// through 4500 in steps of 500, and within each the 98 thresholds 0.02
/// through 0.99 in steps of 0.01, ascending.
pub fn grid_points() -> (g: Vec<GridPoint>)
    ensures
        g@.len() == 784,
        forall|k: int| 0 <= k < 784 ==> g@[k] == (GridPoint {
            max_iterations: (1000 + 500 * (k / 98)) as u64,
            threshold_hundredths: (2 + k % 98) as u64,
        }),
{
    let mut g: Vec<GridPoint> = Vec::new();
    let mut outer: usize = 0;
    while outer < 8
        invariant
            outer <= 8,
            g@.len() == outer * 98,
            forall|k: int| 0 <= k < g@.len() ==> g@[k] == (GridPoint {
                max_iterations: (1000 + 500 * (k / 98)) as u64,
                threshold_hundredths: (2 + k % 98) as u64,
            }),
        decreases 8 - outer,
    {
        let max_iterations: u64 = 1000 + 500 * (outer as u64);
        let mut t: u64 = 2;
        while t < 100
            invariant
                2 <= t <= 100,
                outer < 8,
                max_iterations == 1000 + 500 * outer,
                g@.len() == outer * 98 + (t - 2),
                forall|k: int| 0 <= k < g@.len() ==> g@[k] == (GridPoint {
                    max_iterations: (1000 + 500 * (k / 98)) as u64,
                    threshold_hundredths: (2 + k % 98) as u64,
                }),
            decreases 100 - t,
        {
            proof {
                lemma_fundamental_div_mod_converse(
                    g@.len() as int,
                    98,
                    outer as int,
                    t - 2,
                );
            }
            g.push(GridPoint { max_iterations, threshold_hundredths: t });
            t = t + 1;
        }
        outer = outer + 1;
    }
    g
}

/// The grid read block-wise: the sample at row `i`, column `j` of the nested
/// walk carries the `i`-th iteration cap and the `j`-th threshold, and the
/// eight iteration caps are pairwise distinct.
pub proof fn lemma_grid_structure(g: Seq<GridPoint>)
    requires
        g.len() == 784,
        forall|k: int| 0 <= k < 784 ==> g[k] == (GridPoint {
            max_iterations: (1000 + 500 * (k / 98)) as u64,
            threshold_hundredths: (2 + k % 98) as u64,
        }),
    ensures
        forall|i: int, j: int| 0 <= i < 8 && 0 <= j < 98 ==> #[trigger] g[i * 98 + j] == (
        GridPoint { max_iterations: (1000 + 500 * i) as u64, threshold_hundredths: (2 + j) as u64 }),
        forall|i1: int, i2: int|
            0 <= i1 < 8 && 0 <= i2 < 8 && i1 != i2 ==> #[trigger] g[i1 * 98].max_iterations
                != #[trigger] g[i2 * 98].max_iterations,
{
    assert forall|i: int, j: int| 0 <= i < 8 && 0 <= j < 98 implies #[trigger] g[i * 98 + j] == (
    GridPoint {
        max_iterations: (1000 + 500 * i) as u64,
        threshold_hundredths: (2 + j) as u64,
    }) by {
        lemma_fundamental_div_mod_converse(i * 98 + j, 98, i, j);
    }
    assert forall|i1: int, i2: int|
        0 <= i1 < 8 && 0 <= i2 < 8 && i1 != i2 implies #[trigger] g[i1 * 98].max_iterations
        != #[trigger] g[i2 * 98].max_iterations by {
        lemma_fundamental_div_mod_converse(i1 * 98, 98, i1, 0);
        lemma_fundamental_div_mod_converse(i2 * 98, 98, i2, 0);
    }
}

/// The running best of the sweep: the most accurate confusion matrix seen so
/// far and the hyperparameter pair that produced it. Until a grid point
/// strictly beats the seed, the pair stays the baseline's own.
#[derive(Clone, Copy, Debug, PartialEq, Eq, Structural)]
pub struct SweepState {
    pub best: ConfusionMatrix,
    pub best_threshold_hundredths: u64,
    pub best_max_iterations: u64,
}

/// The state the sweep starts from: the baseline result as the running best,
/// under the baseline's own hyperparameter pair, so the final state always
/// reports the pair that produced its best.
pub open spec fn spec_seeded(baseline: ConfusionMatrix) -> SweepState {
    SweepState { best: baseline, best_threshold_hundredths: 1, best_max_iterations: 100 }
}

/// One sweep decision: a strictly more accurate result replaces the running
/// best, anything else leaves it unchanged, so ties keep the earliest find.
pub open spec fn spec_observe(s: SweepState, cm: ConfusionMatrix, point: GridPoint) -> SweepState {
    if spec_accuracy_gt(cm, s.best) {
        SweepState {
            best: cm,
            best_threshold_hundredths: point.threshold_hundredths,
            best_max_iterations: point.max_iterations,
        }
    } else {
        s
    }
}

/// The sweep folded over a sequence of evaluations, earliest first.
pub open spec fn spec_run(s: SweepState, evals: Seq<(ConfusionMatrix, GridPoint)>) -> SweepState
    decreases evals.len(),
{
    if evals.len() == 0 {
        s
    } else {
        spec_run(spec_observe(s, evals[0].0, evals[0].1), evals.drop_first())
    }
}

impl SweepState {
    /// Well-formed: the running best's counts add up within their type.
    pub open spec fn wf(&self) -> bool {
        self.best.wf()
    }

    /// Seeds the running best with the baseline result, under the baseline
    /// hyperparameter pair that produced it.
    pub fn seed(baseline: ConfusionMatrix) -> (s: SweepState)
        requires
            baseline.wf(),
        ensures
            s == spec_seeded(baseline),
            s.best_threshold_hundredths == 1,
            s.best_max_iterations == 100,
            s.wf(),
    {
        SweepState { best: baseline, best_threshold_hundredths: 1, best_max_iterations: 100 }
    }

    /// Feeds one grid evaluation into the running best: replaced exactly on
    /// a strict accuracy improvement, so the best never gets worse.
    pub fn observe(&mut self, cm: ConfusionMatrix, point: GridPoint)
        requires
            old(self).wf(),
            cm.wf(),
        ensures
            *final(self) == spec_observe(*old(self), cm, point),
            final(self).wf(),
            spec_accuracy_ge(final(self).best, old(self).best),
    {
        if cm.accuracy_gt(&self.best) {
            self.best = cm;
            self.best_threshold_hundredths = point.threshold_hundredths;
            self.best_max_iterations = point.max_iterations;
        }
    }
}

/// Observations never lower the running best: after any sequence of grid
/// evaluations, the final best's accuracy is at least the accuracy the state
/// started with.
pub proof fn lemma_run_never_below_start(s: SweepState, evals: Seq<(ConfusionMatrix, GridPoint)>)
    ensures
        spec_accuracy_ge(spec_run(s, evals).best, s.best),
    decreases evals.len(),
{
    if evals.len() == 0 {
    } else {
        let s1 = spec_observe(s, evals[0].0, evals[0].1);
        lemma_run_never_below_start(s1, evals.drop_first());
        if spec_accuracy_gt(evals[0].0, s.best) {
            lemma_accuracy_ge_gt_trans(spec_run(s1, evals.drop_first()).best, s1.best, s.best);
        }
    }
}

/// The sweep never returns a result below the baseline: seeded with the
/// baseline evaluation, any sequence of grid evaluations ends with a best
/// whose accuracy is at least the baseline's.
pub proof fn lemma_best_at_least_baseline(
    baseline: ConfusionMatrix,
    evals: Seq<(ConfusionMatrix, GridPoint)>,
)
    ensures
        spec_accuracy_ge(spec_run(spec_seeded(baseline), evals).best, baseline),
{
    lemma_run_never_below_start(spec_seeded(baseline), evals);
}

/// Folds the grid evaluations, earliest first, into the winning result:
/// strictly greater accuracy replaces the running best, ties keep the
/// earliest find, and the baseline seeds the comparison.
pub fn run_sweep(baseline: ConfusionMatrix, evals: &Vec<(ConfusionMatrix, GridPoint)>) -> (s:
    SweepState)
    requires
        baseline.wf(),
        forall|k: int| 0 <= k < evals@.len() ==> (#[trigger] evals@[k].0).wf(),
    ensures
        s == spec_run(spec_seeded(baseline), evals@),
        s.wf(),
        spec_accuracy_ge(s.best, baseline),
{
    let mut state = SweepState::seed(baseline);
    let mut k: usize = 0;
    proof {
        assert(evals@.skip(0) =~= evals@);
    }
    while k < evals.len()
        invariant
            state.wf(),
            k <= evals@.len(),
            forall|j: int| 0 <= j < evals@.len() ==> (#[trigger] evals@[j].0).wf(),
            spec_run(spec_seeded(baseline), evals@) == spec_run(state, evals@.skip(k as int)),
        decreases evals@.len() - k,
    {
        proof {
            assert(evals@.skip(k as int)[0] == evals@[k as int]);
            assert(evals@.skip(k as int).drop_first() =~= evals@.skip(k + 1));
        }
        let (cm, point) = evals[k];
        state.observe(cm, point);
        k = k + 1;
    }
    proof {
        assert(evals@.skip(evals@.len() as int) =~= Seq::<(ConfusionMatrix, GridPoint)>::empty());
        lemma_run_never_below_start(spec_seeded(baseline), evals@);
    }
    state
}

} // verus!
