use logistic_sweep::ConfusionMatrix;
use logistic_sweep::EvaluationError;
use logistic_sweep::Label;

fn labels(bits: &[u8]) -> Vec<Label> {
    bits.iter()
        .map(|b| if *b == 1 { Label::Accepted } else { Label::Denied })
        .collect()
}

#[test]
fn counts_each_outcome() {
    // predicted vs actual:
    // (1,1) tp, (1,0) fp, (0,0) tn, (0,1) fn, (1,1) tp, (0,0) tn
    let predicted = labels(&[1, 1, 0, 0, 1, 0]);
    let actual = labels(&[1, 0, 0, 1, 1, 0]);
    let cm = ConfusionMatrix::from_labels(&predicted, &actual).unwrap();
    assert_eq!(cm.true_positives, 2);
    assert_eq!(cm.false_positives, 1);
    assert_eq!(cm.true_negatives, 2);
    assert_eq!(cm.false_negatives, 1);
    assert_eq!(cm.total(), 6);
}

#[test]
fn length_mismatch_is_the_only_error() {
    let predicted = labels(&[1, 0]);
    let actual = labels(&[1]);
    assert_eq!(
        ConfusionMatrix::from_labels(&predicted, &actual),
        Err(EvaluationError::LabelCountMismatch)
    );
    assert!(ConfusionMatrix::from_labels(&actual, &actual).is_ok());
}

#[test]
fn empty_labels_give_an_empty_matrix() {
    let cm = ConfusionMatrix::from_labels(&Vec::new(), &Vec::new()).unwrap();
    assert_eq!(cm.total(), 0);
    assert_eq!(cm.accuracy_parts(), (0, 0));
    assert_eq!(cm.precision_parts(), None);
    assert_eq!(cm.recall_parts(), None);
}

#[test]
fn derived_metrics_satisfy_their_formulas() {
    let cm = ConfusionMatrix {
        true_positives: 3,
        false_positives: 1,
        true_negatives: 4,
        false_negatives: 2,
    };
    let (hits, total) = cm.accuracy_parts();
    assert_eq!((hits, total), (7, 10));
    let accuracy = hits as f64 / total as f64;
    assert_eq!(accuracy, (3.0 + 4.0) / (3.0 + 1.0 + 4.0 + 2.0));

    let (tp, predicted_positive) = cm.precision_parts().unwrap();
    assert_eq!((tp, predicted_positive), (3, 4));
    let precision = tp as f64 / predicted_positive as f64;
    assert_eq!(precision, 3.0 / (3.0 + 1.0));

    let (tp, actually_positive) = cm.recall_parts().unwrap();
    assert_eq!((tp, actually_positive), (3, 5));
    let recall = tp as f64 / actually_positive as f64;
    assert_eq!(recall, 3.0 / (3.0 + 2.0));
}

#[test]
fn metrics_are_guarded_when_undefined() {
    let no_predicted_positive = ConfusionMatrix {
        true_positives: 0,
        false_positives: 0,
        true_negatives: 4,
        false_negatives: 2,
    };
    assert_eq!(no_predicted_positive.precision_parts(), None);
    assert_eq!(no_predicted_positive.recall_parts(), Some((0, 2)));

    let no_actual_positive = ConfusionMatrix {
        true_positives: 0,
        false_positives: 3,
        true_negatives: 4,
        false_negatives: 0,
    };
    assert_eq!(no_actual_positive.recall_parts(), None);
    assert_eq!(no_actual_positive.precision_parts(), Some((0, 3)));
}

#[test]
fn accuracy_comparison_is_exact() {
    let half = ConfusionMatrix {
        true_positives: 1,
        false_positives: 1,
        true_negatives: 0,
        false_negatives: 0,
    };
    let three_quarters = ConfusionMatrix {
        true_positives: 3,
        false_positives: 1,
        true_negatives: 0,
        false_negatives: 0,
    };
    // Equal ratios with different counts: 1/2 == 2/4.
    let also_half = ConfusionMatrix {
        true_positives: 2,
        false_positives: 2,
        true_negatives: 0,
        false_negatives: 0,
    };
    assert!(three_quarters.accuracy_gt(&half));
    assert!(!half.accuracy_gt(&three_quarters));
    assert!(!half.accuracy_gt(&also_half));
    assert!(!also_half.accuracy_gt(&half));
}

#[test]
fn empty_matrix_never_wins_a_comparison() {
    let empty = ConfusionMatrix {
        true_positives: 0,
        false_positives: 0,
        true_negatives: 0,
        false_negatives: 0,
    };
    let anything = ConfusionMatrix {
        true_positives: 1,
        false_positives: 0,
        true_negatives: 0,
        false_negatives: 0,
    };
    assert!(!empty.accuracy_gt(&anything));
    assert!(!anything.accuracy_gt(&empty));
}
