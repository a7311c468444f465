//! Observations, datasets and the positional train/test splitter.

use vstd::prelude::*;

verus! {

/// One labeled data point: a feature vector (bit representations of the
/// coordinates) and a scalar label, immutable once loaded.
pub struct Observation {
    /// Bit representations of the feature values, in order.
    pub features: Vec<u64>,
    /// Bit representation of the scalar label.
    pub label: u64,
}

/// Configuration rejected before any training work begins.
#[derive(PartialEq, Eq, Structural, Clone, Copy, Debug)]
pub enum ConfigError {
    /// The requested training prefix is longer than the dataset.
    TrainSizeTooLarge,
    /// The dataset holds no observations, so no bounding box exists for
    /// grid sampling.
    EmptyDataset,
    /// Some observation does not have exactly two features, which grid
    /// sampling requires.
    FeatureArity,
    /// The learning rate does not compare strictly greater than zero.
    NonPositiveLearningRate,
}

/// Partitions an ordered dataset into a training prefix and a test suffix.
///
/// `train` is the first `train_size` observations in original order and
/// `test` is all remaining observations in original order; concatenating
/// the two reproduces the dataset exactly.  Fails if and only if
/// `train_size` exceeds the dataset length.
pub fn split(dataset: Vec<Observation>, train_size: usize) -> (r: Result<
    (Vec<Observation>, Vec<Observation>),
    ConfigError,
>)
    ensures
        r is Ok <==> train_size <= dataset@.len(),
        r matches Ok((train, test)) ==> {
            &&& train@ == dataset@.take(train_size as int)
            &&& test@ == dataset@.skip(train_size as int)
            &&& train@.len() + test@.len() == dataset@.len()
            &&& train@ + test@ == dataset@
        },
        r is Err ==> r == Result::<(Vec<Observation>, Vec<Observation>), ConfigError>::Err(
            ConfigError::TrainSizeTooLarge,
        ),
{
    let ghost d0 = dataset@;
    let mut train = dataset;
    if train_size > train.len() {
        return Err(ConfigError::TrainSizeTooLarge);
    }
    let test = train.split_off(train_size);
    proof {
        assert(train@ + test@ =~= d0);
        assert(train@ =~= d0.take(train_size as int));
        assert(test@ =~= d0.skip(train_size as int));
    }
    Ok((train, test))
}

} // verus!
