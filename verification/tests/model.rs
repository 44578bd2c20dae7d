use logistic_sweep::ConfusionMatrix;
use logistic_sweep::Dataset as SweepDataset;
use logistic_sweep::Label;
use logistic_sweep::Row;

use linfa::DatasetBase;
use linfa::traits::Fit;
use linfa::traits::Predict;
use linfa_logistic::FittedLogisticRegression;
use linfa_logistic::LogisticRegression;
use ndarray::Array1;
use ndarray::Array2;

/// Two well-separated clusters: the denied samples near (20, 20) and the
/// accepted samples near (80, 80), with a small deterministic jitter. The
/// accepted class is kept in the majority so it is the model's positive
/// class.
fn cluster_rows(n_accepted: usize, n_denied: usize, phase: usize) -> Vec<Row> {
    let mut rows = Vec::new();
    for i in 0..n_denied {
        let x = 15.0 + ((i + phase) % 7) as f64;
        let y = 18.0 + ((i * 3 + phase) % 11) as f64;
        rows.push(Row { feature1: x.to_bits(), feature2: y.to_bits(), class_value: 0 });
    }
    for i in 0..n_accepted {
        let x = 75.0 + ((i + phase) % 7) as f64;
        let y = 78.0 + ((i * 3 + phase) % 11) as f64;
        rows.push(Row { feature1: x.to_bits(), feature2: y.to_bits(), class_value: 1 });
    }
    rows
}

fn to_linfa_dataset(d: &SweepDataset) -> DatasetBase<Array2<f64>, Array1<&'static str>> {
    let n = d.records().len();
    let mut flat = Vec::with_capacity(n * 2);
    for (a, b) in d.records().iter() {
        flat.push(f64::from_bits(*a));
        flat.push(f64::from_bits(*b));
    }
    let records = Array2::from_shape_vec((n, 2), flat).expect("rectangular feature matrix");
    let targets = Array1::from(d.targets().iter().map(|l| l.as_str()).collect::<Vec<_>>());
    DatasetBase::new(records, targets)
}

fn fit_model(
    train: &DatasetBase<Array2<f64>, Array1<&'static str>>,
    max_iterations: u64,
) -> FittedLogisticRegression<f64, &'static str> {
    LogisticRegression::default()
        .max_iterations(max_iterations)
        .gradient_tolerance(0.0001)
        .fit(train)
        .expect("can train model")
}

fn labels_of_predictions(predictions: &Array1<&'static str>) -> Vec<Label> {
    predictions
        .iter()
        .map(|s| if *s == "accepted" { Label::Accepted } else { Label::Denied })
        .collect()
}

#[test]
fn separable_clusters_classify_above_ninety_percent() {
    let train = SweepDataset::from_rows(&cluster_rows(52, 48, 0));
    let test = SweepDataset::from_rows(&cluster_rows(20, 20, 3));
    let train_ds = to_linfa_dataset(&train);
    let test_ds = to_linfa_dataset(&test);

    let model = fit_model(&train_ds, 1000).set_threshold(0.5);
    let predictions = model.predict(test_ds.records());

    let predicted = labels_of_predictions(&predictions);
    let actual = test.targets().clone();
    let cm = ConfusionMatrix::from_labels(&predicted, &actual).expect("can create confusion matrix");
    assert_eq!(cm.total(), test.nsamples() as u64);

    let (hits, total) = cm.accuracy_parts();
    let accuracy = hits as f64 / total as f64;
    assert!(accuracy > 0.9, "accuracy was {accuracy}");
}

#[test]
fn higher_threshold_never_predicts_more_positives() {
    let train = SweepDataset::from_rows(&cluster_rows(52, 48, 0));
    let test = SweepDataset::from_rows(&cluster_rows(20, 20, 5));
    let train_ds = to_linfa_dataset(&train);
    let test_ds = to_linfa_dataset(&test);

    let model = fit_model(&train_ds, 1000);
    let at_half = model.clone().set_threshold(0.5).predict(test_ds.records());
    let at_extreme = model.set_threshold(0.99).predict(test_ds.records());

    let positives_at_half = at_half.iter().filter(|s| **s == "accepted").count();
    let positives_at_extreme = at_extreme.iter().filter(|s| **s == "accepted").count();
    assert!(positives_at_extreme <= positives_at_half);
}
