//! Full training runs, against the real autodiff engine and against
//! deterministic stand-ins.

use gradient_trainer::data::ConfigError;
use gradient_trainer::data::Observation;
use gradient_trainer::engine::Arith;
use gradient_trainer::engine::Engine;
use gradient_trainer::stub::RecordingReporter;
use gradient_trainer::stub::StubArith;
use gradient_trainer::stub::StubEngine;
use gradient_trainer::train::run_gradient_sample;
use nanograd::Value;
use nanograd::MLP;

/// Host arithmetic over the real f64 semantics.
struct RealArith;

impl Arith for RealArith {
    fn add_bits(&self, a: u64, b: u64) -> u64 {
        (f64::from_bits(a) + f64::from_bits(b)).to_bits()
    }

    fn sub_bits(&self, a: u64, b: u64) -> u64 {
        (f64::from_bits(a) - f64::from_bits(b)).to_bits()
    }

    fn mul_bits(&self, a: u64, b: u64) -> u64 {
        (f64::from_bits(a) * f64::from_bits(b)).to_bits()
    }

    fn div_bits(&self, a: u64, b: u64) -> u64 {
        (f64::from_bits(a) / f64::from_bits(b)).to_bits()
    }

    fn grid_coord(&self, lo: u64, hi: u64, n: usize, idx: usize) -> u64 {
        let lo = f64::from_bits(lo);
        let hi = f64::from_bits(hi);
        let step = (hi - lo).abs() / (n as f64);
        (lo + ((idx as f64) + 0.5) * step).to_bits()
    }

    fn one_minus_ratio(&self, num: usize, den: usize) -> u64 {
        (1.0 - (num as f64) / (den as f64)).to_bits()
    }
}

/// The real reverse-mode autodiff engine behind the capability interface.
struct NanoEngine {
    mlp: MLP,
    recorded: Vec<Value>,
    loss: Option<Value>,
}

impl NanoEngine {
    fn new(input_count: usize, hidden: &[usize]) -> NanoEngine {
        let mut widths: Vec<usize> = hidden.to_vec();
        widths.push(1);
        NanoEngine { mlp: MLP::new(input_count, widths), recorded: Vec::new(), loss: None }
    }

    fn eval(&self, features: &Vec<u64>) -> Value {
        let inputs: Vec<Value> =
            features.iter().map(|b| Value::from(f64::from_bits(*b))).collect();
        self.mlp.forward(inputs)[0].clone()
    }
}

impl Engine for NanoEngine {
    fn predict(&self, features: &Vec<u64>) -> u64 {
        self.eval(features).data().to_bits()
    }

    fn forward_train(&mut self, features: &Vec<u64>) -> u64 {
        let out = self.eval(features);
        let bits = out.data().to_bits();
        self.recorded.push(out);
        bits
    }

    fn sse_loss(&mut self, labels: &Vec<u64>) -> u64 {
        let recorded = std::mem::take(&mut self.recorded);
        let loss: Value = recorded
            .into_iter()
            .zip(labels.iter())
            .map(|(yp, yg)| (yp - Value::from(f64::from_bits(*yg))).pow(&Value::from(2.0)))
            .sum();
        let bits = loss.data().to_bits();
        self.loss = Some(loss);
        bits
    }

    fn parameter_count(&self) -> usize {
        self.mlp.parameters().len()
    }

    fn clear_gradient(&mut self, i: usize) {
        self.mlp.parameters()[i].clear_gradient();
    }

    fn backward(&mut self) {
        if let Some(loss) = &self.loss {
            loss.backward();
        }
    }

    fn adjust(&mut self, i: usize, step: u64) {
        self.mlp.parameters()[i].adjust(f64::from_bits(step));
    }
}

/// A deterministic affine engine that records its forward outputs and
/// computes the real sum-of-squared-errors loss; gradient steps leave it
/// unchanged.
struct FixedEngine {
    wx: f64,
    wy: f64,
    b: f64,
    recorded: Vec<f64>,
}

impl FixedEngine {
    fn eval(&self, features: &Vec<u64>) -> f64 {
        let x = f64::from_bits(features[0]);
        let y = f64::from_bits(features[1]);
        self.wx * x + self.wy * y + self.b
    }
}

impl Engine for FixedEngine {
    fn predict(&self, features: &Vec<u64>) -> u64 {
        self.eval(features).to_bits()
    }

    fn forward_train(&mut self, features: &Vec<u64>) -> u64 {
        let out = self.eval(features);
        self.recorded.push(out);
        out.to_bits()
    }

    fn sse_loss(&mut self, labels: &Vec<u64>) -> u64 {
        let recorded = std::mem::take(&mut self.recorded);
        let loss: f64 = recorded
            .iter()
            .zip(labels.iter())
            .map(|(yp, yg)| (yp - f64::from_bits(*yg)) * (yp - f64::from_bits(*yg)))
            .sum();
        loss.to_bits()
    }

    fn parameter_count(&self) -> usize {
        3
    }

    fn clear_gradient(&mut self, _i: usize) {
    }

    fn backward(&mut self) {
    }

    fn adjust(&mut self, _i: usize, _step: u64) {
    }
}

fn obs(x: f64, y: f64, label: f64) -> Observation {
    Observation { features: vec![x.to_bits(), y.to_bits()], label: label.to_bits() }
}

fn four_points() -> Vec<Observation> {
    vec![
        obs(2.0, 3.0, 1.0),
        obs(3.0, -1.0, -1.0),
        obs(0.5, 1.0, -1.0),
        obs(1.0, 1.0, 1.0),
    ]
}

#[test]
fn example_scenario_with_real_engine() {
    let mut engine = NanoEngine::new(2, &[4, 4]);
    let arith = RealArith;
    let mut reporter = RecordingReporter::new();
    let dataset = four_points();
    let result = run_gradient_sample(
        &mut engine,
        &arith,
        &mut reporter,
        &dataset,
        0.05f64.to_bits(),
        1,
        &vec![4, 4],
        3,
    )
    .unwrap();
    assert_eq!(result.get_loss().len(), 1);
    assert_eq!(reporter.recorded().len(), 1);
    assert_eq!(reporter.recorded()[0].1, 0);
    assert_eq!(reporter.recorded()[0].0, result.get_loss()[0]);
    assert_eq!(result.get_predictions().len(), 4);
    assert_eq!(result.get_network_dimensions(), vec![2, 4, 4, 1]);
    assert_eq!(result.get_num_epochs(), 1);
}

#[test]
fn loss_history_length_equals_epoch_count() {
    let mut engine = NanoEngine::new(2, &[3]);
    let arith = RealArith;
    let mut reporter = RecordingReporter::new();
    let dataset = four_points();
    let result = run_gradient_sample(
        &mut engine,
        &arith,
        &mut reporter,
        &dataset,
        0.05f64.to_bits(),
        5,
        &vec![3],
        2,
    )
    .unwrap();
    assert_eq!(result.get_loss().len(), 5);
    assert_eq!(result.get_num_epochs(), 5);
    assert_eq!(reporter.recorded().len(), 5);
    for (e, entry) in reporter.recorded().iter().enumerate() {
        assert_eq!(entry.1 as usize, e);
    }
}

#[test]
fn zero_epochs_yield_empty_history() {
    let mut engine = NanoEngine::new(2, &[4]);
    let arith = RealArith;
    let mut reporter = RecordingReporter::new();
    let dataset = four_points();
    let result = run_gradient_sample(
        &mut engine,
        &arith,
        &mut reporter,
        &dataset,
        0.05f64.to_bits(),
        0,
        &vec![4],
        2,
    )
    .unwrap();
    assert!(result.get_loss().is_empty());
    assert_eq!(result.get_num_epochs(), 0);
    assert!(reporter.recorded().is_empty());
    assert_eq!(result.get_predictions().len(), 2);
}

#[test]
fn empty_training_prefix_keeps_loss_at_zero() {
    let mut engine = NanoEngine::new(2, &[4]);
    let arith = RealArith;
    let mut reporter = RecordingReporter::new();
    let dataset = four_points();
    let result = run_gradient_sample(
        &mut engine,
        &arith,
        &mut reporter,
        &dataset,
        0.05f64.to_bits(),
        3,
        &vec![4],
        0,
    )
    .unwrap();
    assert_eq!(result.get_loss(), vec![0.0f64.to_bits(); 3]);
    assert_eq!(reporter.recorded().len(), 3);
    for (e, entry) in reporter.recorded().iter().enumerate() {
        assert_eq!(f64::from_bits(entry.0), 0.0);
        assert_eq!(entry.1 as usize, e);
    }
}

#[test]
fn grid_outputs_have_square_length() {
    let mut engine = NanoEngine::new(2, &[4]);
    let arith = RealArith;
    let mut reporter = RecordingReporter::new();
    let dataset = four_points();
    let result = run_gradient_sample(
        &mut engine,
        &arith,
        &mut reporter,
        &dataset,
        0.05f64.to_bits(),
        2,
        &vec![4],
        3,
    )
    .unwrap();
    assert_eq!(result.get_grid_predictions().len(), 100);
    assert_eq!(result.get_grid_xs().len(), 100);
    assert_eq!(result.get_grid_ys().len(), 100);
}

#[test]
fn classification_error_of_nonempty_test_set_is_in_unit_interval() {
    let mut engine = NanoEngine::new(2, &[4]);
    let arith = RealArith;
    let mut reporter = RecordingReporter::new();
    let dataset = four_points();
    let result = run_gradient_sample(
        &mut engine,
        &arith,
        &mut reporter,
        &dataset,
        0.05f64.to_bits(),
        2,
        &vec![4],
        2,
    )
    .unwrap();
    let error = f64::from_bits(result.get_classification_error());
    assert!((0.0..=1.0).contains(&error));
}

#[test]
fn oversized_train_prefix_is_rejected() {
    let mut engine = NanoEngine::new(2, &[4]);
    let arith = RealArith;
    let mut reporter = RecordingReporter::new();
    let dataset = four_points();
    let r = run_gradient_sample(
        &mut engine,
        &arith,
        &mut reporter,
        &dataset,
        0.05f64.to_bits(),
        1,
        &vec![4],
        5,
    );
    assert!(matches!(r, Err(ConfigError::TrainSizeTooLarge)));
}

#[test]
fn non_positive_learning_rate_is_rejected() {
    let mut engine = NanoEngine::new(2, &[4]);
    let arith = RealArith;
    let mut reporter = RecordingReporter::new();
    let dataset = four_points();
    let r = run_gradient_sample(
        &mut engine,
        &arith,
        &mut reporter,
        &dataset,
        0.0f64.to_bits(),
        1,
        &vec![4],
        2,
    );
    assert!(matches!(r, Err(ConfigError::NonPositiveLearningRate)));
    let r = run_gradient_sample(
        &mut engine,
        &arith,
        &mut reporter,
        &dataset,
        (-0.05f64).to_bits(),
        1,
        &vec![4],
        2,
    );
    assert!(matches!(r, Err(ConfigError::NonPositiveLearningRate)));
}

#[test]
fn empty_dataset_is_rejected() {
    let mut engine = NanoEngine::new(2, &[4]);
    let arith = RealArith;
    let mut reporter = RecordingReporter::new();
    let dataset: Vec<Observation> = Vec::new();
    let r = run_gradient_sample(
        &mut engine,
        &arith,
        &mut reporter,
        &dataset,
        0.05f64.to_bits(),
        1,
        &vec![4],
        0,
    );
    assert!(matches!(r, Err(ConfigError::EmptyDataset)));
}

#[test]
fn wrong_feature_arity_is_rejected() {
    let mut engine = NanoEngine::new(2, &[4]);
    let arith = RealArith;
    let mut reporter = RecordingReporter::new();
    let dataset = vec![
        obs(1.0, 2.0, 1.0),
        Observation { features: vec![1.0f64.to_bits()], label: 1.0f64.to_bits() },
    ];
    let r = run_gradient_sample(
        &mut engine,
        &arith,
        &mut reporter,
        &dataset,
        0.05f64.to_bits(),
        1,
        &vec![4],
        1,
    );
    assert!(matches!(r, Err(ConfigError::FeatureArity)));
}

#[test]
fn stub_engine_run_has_the_same_structure() {
    let mut engine = StubEngine::new(6, 0x1234_5678);
    let arith = StubArith;
    let mut reporter = RecordingReporter::new();
    let dataset = four_points();
    let result = run_gradient_sample(
        &mut engine,
        &arith,
        &mut reporter,
        &dataset,
        0.05f64.to_bits(),
        4,
        &vec![5, 5],
        3,
    )
    .unwrap();
    assert_eq!(result.get_loss().len(), 4);
    assert_eq!(result.get_num_epochs(), 4);
    assert_eq!(result.get_network_dimensions(), vec![2, 5, 5, 1]);
    assert_eq!(result.get_predictions().len(), 4);
    assert_eq!(result.get_grid_predictions().len(), 100);
    assert_eq!(reporter.recorded().len(), 4);
}

#[test]
fn predictions_hold_last_epoch_train_outputs_then_test_outputs() {
    let mut engine = FixedEngine { wx: 1.0, wy: -2.0, b: 0.5, recorded: Vec::new() };
    let arith = RealArith;
    let mut reporter = RecordingReporter::new();
    let dataset = four_points();
    let result = run_gradient_sample(
        &mut engine,
        &arith,
        &mut reporter,
        &dataset,
        0.05f64.to_bits(),
        2,
        &vec![4],
        2,
    )
    .unwrap();
    let f = |x: f64, y: f64| 1.0 * x - 2.0 * y + 0.5;
    let expected = vec![f(2.0, 3.0), f(3.0, -1.0), f(0.5, 1.0), f(1.0, 1.0)];
    let got: Vec<f64> = result.get_predictions().iter().map(|b| f64::from_bits(*b)).collect();
    assert_eq!(got, expected);
    let expected_loss = (f(2.0, 3.0) - 1.0) * (f(2.0, 3.0) - 1.0)
        + (f(3.0, -1.0) - -1.0) * (f(3.0, -1.0) - -1.0);
    for loss in result.get_loss() {
        assert_eq!(f64::from_bits(loss), expected_loss);
    }
    for entry in reporter.recorded() {
        assert_eq!(f64::from_bits(entry.0), expected_loss);
    }
}

#[test]
fn run_grid_coordinates_stay_inside_padded_box() {
    let mut engine = FixedEngine { wx: 0.5, wy: 0.5, b: 0.0, recorded: Vec::new() };
    let arith = RealArith;
    let mut reporter = RecordingReporter::new();
    let dataset = four_points();
    let result = run_gradient_sample(
        &mut engine,
        &arith,
        &mut reporter,
        &dataset,
        0.05f64.to_bits(),
        1,
        &vec![4],
        3,
    )
    .unwrap();
    let x_lo = 0.5 - 0.1 * (3.0 - 0.5);
    let x_hi = 3.0 + 0.1 * (3.0 - 0.5);
    let y_lo = -1.0 - 0.1 * (3.0 - -1.0);
    let y_hi = 3.0 + 0.1 * (3.0 - -1.0);
    for b in result.get_grid_xs() {
        let x = f64::from_bits(b);
        assert!(x_lo <= x && x <= x_hi);
    }
    for b in result.get_grid_ys() {
        let y = f64::from_bits(b);
        assert!(y_lo <= y && y <= y_hi);
    }
}
