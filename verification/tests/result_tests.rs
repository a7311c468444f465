//! The update value and the result accumulator.

use gradient_trainer::result::TrainingResult;
use gradient_trainer::result::UpdateResult;

#[test]
fn update_result_carries_loss_and_epoch() {
    let u = UpdateResult::new(1.25f64.to_bits(), 7);
    assert_eq!(u.get_loss(), 1.25f64.to_bits());
    assert_eq!(u.get_epoch(), 7);
}

fn empty_result() -> TrainingResult {
    TrainingResult::new(
        Vec::new(),
        vec![2, 4, 4, 1],
        Vec::new(),
        0.0f64.to_bits(),
        Vec::new(),
        Vec::new(),
        Vec::new(),
    )
}

#[test]
fn new_result_starts_with_zero_epochs() {
    let r = empty_result();
    assert_eq!(r.get_num_epochs(), 0);
    assert!(r.get_loss().is_empty());
    assert!(r.get_predictions().is_empty());
    assert_eq!(r.get_network_dimensions(), vec![2, 4, 4, 1]);
    assert_eq!(r.get_classification_error(), 0.0f64.to_bits());
}

#[test]
fn increment_num_epochs_counts_up() {
    let mut r = empty_result();
    r.increment_num_epochs();
    r.increment_num_epochs();
    assert_eq!(r.get_num_epochs(), 2);
}

#[test]
fn set_new_loss_appends_to_history() {
    let mut r = empty_result();
    r.set_new_loss(4.0f64.to_bits());
    r.set_new_loss(2.5f64.to_bits());
    assert_eq!(r.get_loss(), vec![4.0f64.to_bits(), 2.5f64.to_bits()]);
}

#[test]
fn set_predictions_overwrites_buffer() {
    let mut r = empty_result();
    r.set_predictions(vec![1.0f64.to_bits()]);
    r.set_predictions(vec![2.0f64.to_bits(), 3.0f64.to_bits()]);
    assert_eq!(r.get_predictions(), vec![2.0f64.to_bits(), 3.0f64.to_bits()]);
}

#[test]
fn grid_setters_round_trip() {
    let mut r = empty_result();
    r.set_grid_xs(vec![1.0f64.to_bits()]);
    r.set_grid_ys(vec![2.0f64.to_bits()]);
    r.set_grid_predictions(vec![3.0f64.to_bits()]);
    r.set_classification_error(0.75f64.to_bits());
    assert_eq!(r.get_grid_xs(), vec![1.0f64.to_bits()]);
    assert_eq!(r.get_grid_ys(), vec![2.0f64.to_bits()]);
    assert_eq!(r.get_grid_predictions(), vec![3.0f64.to_bits()]);
    assert_eq!(r.get_classification_error(), 0.75f64.to_bits());
}
