//! The positional dataset splitter.

use gradient_trainer::data::ConfigError;
use gradient_trainer::data::Observation;
use gradient_trainer::data::split;

fn obs(x: f64, y: f64, label: f64) -> Observation {
    Observation { features: vec![x.to_bits(), y.to_bits()], label: label.to_bits() }
}

fn four_points() -> Vec<Observation> {
    vec![
        obs(2.0, 3.0, 1.0),
        obs(3.0, -1.0, -1.0),
        obs(0.5, 1.0, -1.0),
        obs(1.0, 1.0, 1.0),
    ]
}

#[test]
fn split_partitions_in_order() {
    let dataset = four_points();
    let labels: Vec<u64> = dataset.iter().map(|o| o.label).collect();
    let (train, test) = split(dataset, 3).unwrap();
    assert_eq!(train.len(), 3);
    assert_eq!(test.len(), 1);
    let rejoined: Vec<u64> = train.iter().chain(test.iter()).map(|o| o.label).collect();
    assert_eq!(rejoined, labels);
    assert_eq!(train[0].features, vec![2.0f64.to_bits(), 3.0f64.to_bits()]);
    assert_eq!(test[0].features, vec![1.0f64.to_bits(), 1.0f64.to_bits()]);
}

#[test]
fn split_lengths_add_up_for_every_train_size() {
    for ts in 0..=4usize {
        let dataset = four_points();
        let n = dataset.len();
        let (train, test) = split(dataset, ts).unwrap();
        assert_eq!(train.len() + test.len(), n);
        assert_eq!(train.len(), ts);
    }
}

#[test]
fn split_whole_dataset_into_train() {
    let (train, test) = split(four_points(), 4).unwrap();
    assert_eq!(train.len(), 4);
    assert!(test.is_empty());
}

#[test]
fn split_nothing_into_train() {
    let (train, test) = split(four_points(), 0).unwrap();
    assert!(train.is_empty());
    assert_eq!(test.len(), 4);
}

#[test]
fn split_rejects_oversized_train_prefix() {
    let r = split(four_points(), 5);
    assert!(matches!(r, Err(ConfigError::TrainSizeTooLarge)));
}

#[test]
fn split_accepts_empty_dataset() {
    let (train, test) = split(Vec::new(), 0).unwrap();
    assert!(train.is_empty());
    assert!(test.is_empty());
}
