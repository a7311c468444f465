//! The per-epoch progress value and the accumulated training result.

use vstd::prelude::*;

verus! {

/// Mathematical content of an `UpdateResult`: the reported loss (bit
/// representation) and the zero-based epoch index.
#[verifier::ext_equal]
pub struct EpochUpdateView {
    pub loss: u64,
    pub epoch: u8,
}

/// One structured progress update, emitted once per completed epoch and not
/// retained by the trainer beyond delivery.
pub struct UpdateResult {
    loss: u64,
    epoch: u8,
}

impl View for UpdateResult {
    type V = EpochUpdateView;

    closed spec fn view(&self) -> EpochUpdateView {
        EpochUpdateView { loss: self.loss, epoch: self.epoch }
    }
}

impl UpdateResult {
    /// Packs a loss value and an epoch index into an update.
    pub fn new(loss: u64, epoch: u8) -> (r: UpdateResult)
        ensures
            r@ == (EpochUpdateView { loss, epoch }),
    {
        UpdateResult { loss, epoch }
    }

    /// The reported loss, as its bit representation.
    pub fn get_loss(&self) -> (r: u64)
        ensures
            r == self@.loss,
    {
        self.loss
    }

    /// The zero-based index of the completed epoch.
    pub fn get_epoch(&self) -> (r: u8)
        ensures
            r == self@.epoch,
    {
        self.epoch
    }
}

/// Mathematical content of a `TrainingResult`.
#[verifier::ext_equal]
pub struct TrainingResultView {
    /// Loss history, one entry per completed epoch, in epoch order.
    pub loss: Seq<u64>,
    /// Layer widths, input layer first, output layer last.
    pub network_dimensions: Seq<usize>,
    /// Number of completed epochs.
    pub num_epochs: u8,
    /// Training-phase predictions followed by test-phase predictions.
    pub predictions: Seq<u64>,
    /// Raw model outputs over the sampled grid.
    pub grid_predictions: Seq<u64>,
    /// First coordinates of the sampled grid points.
    pub grid_xs: Seq<u64>,
    /// Second coordinates of the sampled grid points.
    pub grid_ys: Seq<u64>,
    /// The held-out evaluation figure.
    pub classification_error: u64,
}

/// The value a training run assembles: loss history, network shape,
/// predictions, decision-boundary grid samples and the held-out evaluation
/// figure.  Scalars are bit representations.
pub struct TrainingResult {
    loss: Vec<u64>,
    network_dimensions: Vec<usize>,
    num_epochs: u8,
    predictions: Vec<u64>,
    grid_predictions: Vec<u64>,
    grid_xs: Vec<u64>,
    grid_ys: Vec<u64>,
    classification_error: u64,
}

impl View for TrainingResult {
    type V = TrainingResultView;

    closed spec fn view(&self) -> TrainingResultView {
        TrainingResultView {
            loss: self.loss@,
            network_dimensions: self.network_dimensions@,
            num_epochs: self.num_epochs,
            predictions: self.predictions@,
            grid_predictions: self.grid_predictions@,
            grid_xs: self.grid_xs@,
            grid_ys: self.grid_ys@,
            classification_error: self.classification_error,
        }
    }
}

/// Copies a vector of scalars element by element.
fn copy_u64_vec(v: &Vec<u64>) -> (r: Vec<u64>)
    ensures
        r@ == v@,
{
    let mut r: Vec<u64> = Vec::new();
    let mut i: usize = 0;
    while i < v.len()
        invariant
            i <= v@.len(),
            r@ == v@.take(i as int),
        decreases v@.len() - i,
    {
        r.push(v[i]);
        i = i + 1;
        proof {
            assert(v@.take(i as int) =~= v@.take(i - 1).push(v@[i - 1]));
        }
    }
    proof {
        assert(v@.take(v@.len() as int) =~= v@);
    }
    r
}

/// Copies a vector of widths element by element.
fn copy_usize_vec(v: &Vec<usize>) -> (r: Vec<usize>)
    ensures
        r@ == v@,
{
    let mut r: Vec<usize> = Vec::new();
    let mut i: usize = 0;
    while i < v.len()
        invariant
            i <= v@.len(),
            r@ == v@.take(i as int),
        decreases v@.len() - i,
    {
        r.push(v[i]);
        i = i + 1;
        proof {
            assert(v@.take(i as int) =~= v@.take(i - 1).push(v@[i - 1]));
        }
    }
    proof {
        assert(v@.take(v@.len() as int) =~= v@);
    }
    r
}

impl TrainingResult {
    /// Assembles a result value; the completed-epoch counter starts at zero.
    pub fn new(
        loss: Vec<u64>,
        network_dimensions: Vec<usize>,
        predictions: Vec<u64>,
        classification_error: u64,
        grid_predictions: Vec<u64>,
        grid_xs: Vec<u64>,
        grid_ys: Vec<u64>,
    ) -> (r: TrainingResult)
        ensures
            r@ == (TrainingResultView {
                loss: loss@,
                network_dimensions: network_dimensions@,
                num_epochs: 0u8,
                predictions: predictions@,
                grid_predictions: grid_predictions@,
                grid_xs: grid_xs@,
                grid_ys: grid_ys@,
                classification_error,
            }),
    {
        TrainingResult {
            loss,
            network_dimensions,
            num_epochs: 0,
            predictions,
            grid_predictions,
            grid_xs,
            grid_ys,
            classification_error,
        }
    }

    /// The loss history so far, one entry per completed epoch.
    pub fn get_loss(&self) -> (r: Vec<u64>)
        ensures
            r@ == self@.loss,
    {
        copy_u64_vec(&self.loss)
    }

    /// The layer widths, input layer first, output layer last.
    pub fn get_network_dimensions(&self) -> (r: Vec<usize>)
        ensures
            r@ == self@.network_dimensions,
    {
        copy_usize_vec(&self.network_dimensions)
    }

    /// The number of completed epochs.
    pub fn get_num_epochs(&self) -> (r: u8)
        ensures
            r == self@.num_epochs,
    {
        self.num_epochs
    }

    /// Records one more completed epoch.
    pub fn increment_num_epochs(&mut self)
        requires
            old(self)@.num_epochs < 255,
        ensures
            final(self)@ == (TrainingResultView {
                num_epochs: (old(self)@.num_epochs + 1) as u8,
                ..old(self)@
            }),
    {
        self.num_epochs = self.num_epochs + 1;
    }

    /// Appends one epoch's loss to the history.
    pub fn set_new_loss(&mut self, loss: u64)
        ensures
            final(self)@ == (TrainingResultView { loss: old(self)@.loss.push(loss), ..old(self)@ }),
    {
        self.loss.push(loss);
    }

    /// Replaces the predictions buffer.
    pub fn set_predictions(&mut self, predictions: Vec<u64>)
        ensures
            final(self)@ == (TrainingResultView { predictions: predictions@, ..old(self)@ }),
    {
        self.predictions = predictions;
    }

    /// Replaces the grid predictions.
    pub fn set_grid_predictions(&mut self, grid_predictions: Vec<u64>)
        ensures
            final(self)@ == (TrainingResultView {
                grid_predictions: grid_predictions@,
                ..old(self)@
            }),
    {
        self.grid_predictions = grid_predictions;
    }

    /// Replaces the grid first coordinates.
    pub fn set_grid_xs(&mut self, grid_xs: Vec<u64>)
        ensures
            final(self)@ == (TrainingResultView { grid_xs: grid_xs@, ..old(self)@ }),
    {
        self.grid_xs = grid_xs;
    }

    /// Replaces the grid second coordinates.
    pub fn set_grid_ys(&mut self, grid_ys: Vec<u64>)
        ensures
            final(self)@ == (TrainingResultView { grid_ys: grid_ys@, ..old(self)@ }),
    {
        self.grid_ys = grid_ys;
    }

    /// Replaces the held-out evaluation figure.
    pub fn set_classification_error(&mut self, classification_error: u64)
        ensures
            final(self)@ == (TrainingResultView { classification_error, ..old(self)@ }),
    {
        self.classification_error = classification_error;
    }

    /// The raw model outputs over the sampled grid.
    pub fn get_grid_predictions(&self) -> (r: Vec<u64>)
        ensures
            r@ == self@.grid_predictions,
    {
        copy_u64_vec(&self.grid_predictions)
    }

    /// The first coordinates of the sampled grid points.
    pub fn get_grid_xs(&self) -> (r: Vec<u64>)
        ensures
            r@ == self@.grid_xs,
    {
        copy_u64_vec(&self.grid_xs)
    }

    /// The second coordinates of the sampled grid points.
    pub fn get_grid_ys(&self) -> (r: Vec<u64>)
        ensures
            r@ == self@.grid_ys,
    {
        copy_u64_vec(&self.grid_ys)
    }

    /// The held-out evaluation figure.
    pub fn get_classification_error(&self) -> (r: u64)
        ensures
            r == self@.classification_error,
    {
        self.classification_error
    }

    /// The predictions buffer.
    pub fn get_predictions(&self) -> (r: Vec<u64>)
        ensures
            r@ == self@.predictions,
    {
        copy_u64_vec(&self.predictions)
    }
}

} // verus!
