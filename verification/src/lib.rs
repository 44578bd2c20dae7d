//! A verified core for a binary-classifier hyperparameter sweep.
//!
//! The library models a labeled two-feature dataset, a confusion matrix with
//! exact rational metrics, and the grid search that picks the hyperparameter
//! pair with the highest accuracy.

mod confusion;
mod dataset;
mod labels;
mod sweep;

pub use confusion::ConfusionMatrix;
pub use confusion::EvaluationError;
pub use confusion::lemma_accuracy_ge_gt_trans;
pub use confusion::lemma_accuracy_gt_nonempty;
pub use confusion::spec_accuracy_ge;
pub use confusion::spec_accuracy_gt;
pub use confusion::spec_count_pairs;
pub use dataset::Dataset;
pub use dataset::Row;
pub use dataset::datasets_equal;
pub use dataset::lemma_from_rows_deterministic;
pub use dataset::lemma_partition_sizes;
pub use dataset::spec_partition_neg;
pub use dataset::spec_partition_pos;
pub use dataset::spec_records_of;
pub use dataset::spec_targets_of;
pub use labels::Label;
pub use labels::label_of_numeric;
pub use labels::spec_label_of;
pub use sweep::GridPoint;
pub use sweep::SweepState;
pub use sweep::baseline_point;
pub use sweep::grid_points;
pub use sweep::lemma_best_at_least_baseline;
pub use sweep::lemma_grid_structure;
pub use sweep::lemma_run_never_below_start;
pub use sweep::run_sweep;
pub use sweep::spec_observe;
pub use sweep::spec_run;
pub use sweep::spec_seeded;
