//! The epoch loop and the full training run.

use vstd::prelude::*;
use crate::bits::neg_bits;
use crate::bits::is_pos;
use crate::bits::spec_is_pos;
use crate::bits::spec_in_unit;
use crate::bits::ZERO_BITS;
use crate::data::ConfigError;
use crate::data::Observation;
use crate::bits::spec_neg;
use crate::bits::spec_axis_ok;
use crate::bits::spec_within_axis;
use crate::engine::Arith;
use crate::engine::Engine;
use crate::engine::EngineOp;
use crate::engine::ProgressReporter;
use crate::eval::spec_mismatches;
use crate::eval::classification_error;
use crate::grid::spec_grid_outputs;
use crate::grid::spec_padded_bbox;
use crate::grid::grid_sample;
use crate::result::EpochUpdateView;
use crate::result::TrainingResult;
use crate::result::UpdateResult;

verus! {

/// Grid cells per axis sampled by a training run.
pub const GRID_SQUARES: usize = 10;

/// Input dimensionality of the observations the trainer accepts.
pub const INPUT_FEATURES: usize = 2;

/// The layer widths a run records: the input dimensionality, then the
/// caller's hidden-layer widths, then the fixed output width of one.
pub open spec fn spec_network_dimensions(hidden: Seq<usize>) -> Seq<usize> {
    seq![INPUT_FEATURES] + hidden + seq![1usize]
}

/// Builds the recorded layer widths from the hidden-layer widths.
pub fn network_dimensions(hidden_layer_sizes: &Vec<usize>) -> (r: Vec<usize>)
    ensures
        r@ == spec_network_dimensions(hidden_layer_sizes@),
        r@.len() == hidden_layer_sizes@.len() + 2,
{
    let mut r: Vec<usize> = Vec::new();
    r.push(INPUT_FEATURES);
    proof {
        assert(r@ =~= seq![INPUT_FEATURES] + hidden_layer_sizes@.take(0));
    }
    let mut i: usize = 0;
    while i < hidden_layer_sizes.len()
        invariant
            i <= hidden_layer_sizes@.len(),
            r@ == seq![INPUT_FEATURES] + hidden_layer_sizes@.take(i as int),
        decreases hidden_layer_sizes@.len() - i,
    {
        r.push(hidden_layer_sizes[i]);
        i = i + 1;
        proof {
            assert(seq![INPUT_FEATURES] + hidden_layer_sizes@.take(i as int) =~= (seq![
                INPUT_FEATURES,
            ] + hidden_layer_sizes@.take(i - 1)).push(hidden_layer_sizes@[i - 1]));
        }
    }
    r.push(1);
    proof {
        assert(hidden_layer_sizes@.take(hidden_layer_sizes@.len() as int)
            =~= hidden_layer_sizes@);
        assert(r@ =~= spec_network_dimensions(hidden_layer_sizes@));
    }
    r
}

/// The labels of the first `train_size` observations, in order.
pub open spec fn spec_train_labels(dataset: Seq<Observation>, train_size: int) -> Seq<u64> {
    Seq::new(train_size as nat, |t: int| dataset[t].label)
}

/// The engine operations one epoch performs, in order: a forward pass per
/// training observation, the loss aggregation over the matching labels,
/// a gradient reset per parameter index, one backward pass, and an
/// adjustment of every parameter index by `step`.
pub open spec fn spec_epoch_ops(
    dataset: Seq<Observation>,
    train_size: int,
    forward_outs: Seq<u64>,
    loss_out: u64,
    pc: usize,
    step: u64,
) -> Seq<EngineOp> {
    Seq::new(
        train_size as nat,
        |t: int| EngineOp::Forward { features: dataset[t].features@, output: forward_outs[t] },
    ) + seq![
        EngineOp::Loss { labels: spec_train_labels(dataset, train_size), output: loss_out },
    ] + Seq::new(pc as nat, |p: int| EngineOp::ClearGradient { index: p as usize }) + seq![
        EngineOp::Backward {},
    ] + Seq::new(pc as nat, |p: int| EngineOp::Adjust { index: p as usize, step })
}

/// The engine operations of the first `epochs` epochs, concatenated in
/// epoch order.
pub open spec fn spec_epochs_trace(
    dataset: Seq<Observation>,
    train_size: int,
    forward_outs: Seq<Seq<u64>>,
    losses: Seq<u64>,
    pc: usize,
    step: u64,
    epochs: int,
) -> Seq<EngineOp>
    decreases epochs,
{
    if epochs <= 0 {
        Seq::<EngineOp>::empty()
    } else {
        spec_epochs_trace(dataset, train_size, forward_outs, losses, pc, step, epochs - 1)
            + spec_epoch_ops(
            dataset,
            train_size,
            forward_outs[epochs - 1],
            losses[epochs - 1],
            pc,
            step,
        )
    }
}

/// The trace of the first `epochs` epochs reads only the first `epochs`
/// entries of the per-epoch outputs.
proof fn lemma_epochs_trace_agree(
    dataset: Seq<Observation>,
    train_size: int,
    fw1: Seq<Seq<u64>>,
    fw2: Seq<Seq<u64>>,
    l1: Seq<u64>,
    l2: Seq<u64>,
    pc: usize,
    step: u64,
    epochs: int,
)
    requires
        forall|e: int| 0 <= e < epochs ==> fw1[e] == fw2[e] && l1[e] == l2[e],
    ensures
        spec_epochs_trace(dataset, train_size, fw1, l1, pc, step, epochs) == spec_epochs_trace(
            dataset,
            train_size,
            fw2,
            l2,
            pc,
            step,
            epochs,
        ),
    decreases epochs,
{
    if epochs > 0 {
        lemma_epochs_trace_agree(dataset, train_size, fw1, fw2, l1, l2, pc, step, epochs - 1);
    }
}

/// The whole training work of a run, as the engine observed it.
///
/// `ops1` extends `ops0` by exactly the canonical per-epoch operation
/// sequence: each epoch forward-passes `dataset[0..train_size]`'s feature
/// vectors in order, aggregates the loss over the matching labels, clears
/// every parameter's gradient, backpropagates once, and adjusts every
/// parameter by `step`.  `losses[e]` is what the engine's loss call
/// returned at epoch `e`, and the first `train_size` entries of
/// `predictions` are what the last epoch's forward passes returned, in
/// order; `forward_outs` witnesses the earlier epochs' forward outputs,
/// which the run does not retain.
pub open spec fn spec_training_performed(
    ops0: Seq<EngineOp>,
    ops1: Seq<EngineOp>,
    dataset: Seq<Observation>,
    train_size: int,
    pc: usize,
    step: u64,
    losses: Seq<u64>,
    predictions: Seq<u64>,
    epochs: int,
    forward_outs: Seq<Seq<u64>>,
) -> bool {
    &&& forward_outs.len() == epochs
    &&& (forall|e: int| 0 <= e < epochs ==> (#[trigger] forward_outs[e]).len() == train_size)
    &&& ops1 == ops0 + spec_epochs_trace(dataset, train_size, forward_outs, losses, pc, step, epochs)
    &&& (epochs > 0 ==> predictions.take(train_size) == forward_outs[epochs - 1])
}

/// Runs the gradient-descent epochs over the positional training prefix.
///
/// Each epoch forward-passes every training observation, aggregates the
/// sum-of-squared-errors loss, appends it to the history, overwrites the
/// predictions buffer, delivers the progress update, and only then zeroes
/// every parameter's gradient, backpropagates and applies the step
/// `-learning_rate`.  The result's other fields are left untouched.
pub fn train_loop<E: Engine, R: ProgressReporter>(
    engine: &mut E,
    reporter: &mut R,
    dataset: &Vec<Observation>,
    train_size: usize,
    learning_rate: u64,
    num_epochs: u8,
    result: &mut TrainingResult,
)
    requires
        train_size <= dataset@.len(),
        old(result)@.loss.len() == 0,
        old(result)@.num_epochs == 0,
        old(result)@.predictions.len() == 0,
    ensures
        final(result)@.loss.len() == num_epochs,
        final(result)@.num_epochs == num_epochs,
        final(result)@.predictions.len() == (if num_epochs > 0 {
            train_size as int
        } else {
            0int
        }),
        train_size == 0 ==> (forall|e: int|
            0 <= e < num_epochs ==> final(result)@.loss[e] == ZERO_BITS),
        final(reporter).log() == old(reporter).log() + Seq::new(
            num_epochs as nat,
            |e: int| EpochUpdateView { loss: final(result)@.loss[e], epoch: e as u8 },
        ),
        final(engine).param_count() == old(engine).param_count(),
        exists|fw: Seq<Seq<u64>>|
            spec_training_performed(
                old(engine).ops(),
                final(engine).ops(),
                dataset@,
                train_size as int,
                old(engine).param_count(),
                spec_neg(learning_rate),
                final(result)@.loss,
                final(result)@.predictions,
                num_epochs as int,
                fw,
            ),
        final(result)@.network_dimensions == old(result)@.network_dimensions,
        final(result)@.grid_predictions == old(result)@.grid_predictions,
        final(result)@.grid_xs == old(result)@.grid_xs,
        final(result)@.grid_ys == old(result)@.grid_ys,
        final(result)@.classification_error == old(result)@.classification_error,
{
    let step = neg_bits(learning_rate);
    let ghost mut fw: Seq<Seq<u64>> = Seq::empty();
    let mut epoch: u8 = 0;
    while epoch < num_epochs
        invariant
            train_size <= dataset@.len(),
            epoch <= num_epochs,
            result@.loss.len() == epoch,
            result@.num_epochs == epoch,
            result@.predictions.len() == (if epoch > 0 {
                train_size as int
            } else {
                0int
            }),
            train_size == 0 ==> (forall|e: int| 0 <= e < epoch ==> result@.loss[e] == ZERO_BITS),
            reporter.log() == old(reporter).log() + Seq::new(
                epoch as nat,
                |e: int| EpochUpdateView { loss: result@.loss[e], epoch: e as u8 },
            ),
            engine.param_count() == old(engine).param_count(),
            step == spec_neg(learning_rate),
            fw.len() == epoch,
            forall|e: int| 0 <= e < epoch ==> (#[trigger] fw[e]).len() == train_size,
            engine.ops() == old(engine).ops() + spec_epochs_trace(
                dataset@,
                train_size as int,
                fw,
                result@.loss,
                old(engine).param_count(),
                step,
                epoch as int,
            ),
            epoch > 0 ==> result@.predictions == fw[epoch - 1],
            result@.network_dimensions == old(result)@.network_dimensions,
            result@.grid_predictions == old(result)@.grid_predictions,
            result@.grid_xs == old(result)@.grid_xs,
            result@.grid_ys == old(result)@.grid_ys,
            result@.classification_error == old(result)@.classification_error,
        decreases num_epochs - epoch,
    {
        let ghost ops_epoch = engine.ops();
        let ghost loss_top = result@.loss;
        let ghost fw_prev = fw;
        let mut preds: Vec<u64> = Vec::new();
        let mut labels: Vec<u64> = Vec::new();
        let mut t: usize = 0;
        while t < train_size
            invariant
                train_size <= dataset@.len(),
                t <= train_size,
                preds@.len() == t,
                labels@.len() == t,
                labels@ == spec_train_labels(dataset@, t as int),
                engine.param_count() == old(engine).param_count(),
                engine.ops() == ops_epoch + Seq::new(
                    t as nat,
                    |q: int| EngineOp::Forward {
                        features: dataset@[q].features@,
                        output: preds@[q],
                    },
                ),
            decreases train_size - t,
        {
            let p = engine.forward_train(&dataset[t].features);
            preds.push(p);
            labels.push(dataset[t].label);
            t = t + 1;
            proof {
                assert(labels@ =~= spec_train_labels(dataset@, t as int));
                assert(engine.ops() =~= ops_epoch + Seq::new(
                    t as nat,
                    |q: int| EngineOp::Forward {
                        features: dataset@[q].features@,
                        output: preds@[q],
                    },
                ));
            }
        }
        let loss = engine.sse_loss(&labels);
        result.set_new_loss(loss);
        let ghost epoch_preds = preds@;
        result.set_predictions(preds);
        let update = UpdateResult::new(loss, epoch);
        reporter.on_epoch(&update);
        let ghost ops_graded = engine.ops();
        let pc = engine.parameter_count();
        let mut pi: usize = 0;
        while pi < pc
            invariant
                pi <= pc,
                engine.param_count() == pc,
                pc == old(engine).param_count(),
                engine.ops() == ops_graded + Seq::new(
                    pi as nat,
                    |q: int| EngineOp::ClearGradient { index: q as usize },
                ),
            decreases pc - pi,
        {
            engine.clear_gradient(pi);
            pi = pi + 1;
            proof {
                assert(engine.ops() =~= ops_graded + Seq::new(
                    pi as nat,
                    |q: int| EngineOp::ClearGradient { index: q as usize },
                ));
            }
        }
        engine.backward();
        let ghost ops_backed = engine.ops();
        let mut pj: usize = 0;
        while pj < pc
            invariant
                pj <= pc,
                engine.param_count() == pc,
                pc == old(engine).param_count(),
                step == spec_neg(learning_rate),
                engine.ops() == ops_backed + Seq::new(
                    pj as nat,
                    |q: int| EngineOp::Adjust { index: q as usize, step },
                ),
            decreases pc - pj,
        {
            engine.adjust(pj, step);
            pj = pj + 1;
            proof {
                assert(engine.ops() =~= ops_backed + Seq::new(
                    pj as nat,
                    |q: int| EngineOp::Adjust { index: q as usize, step },
                ));
            }
        }
        result.increment_num_epochs();
        epoch = epoch + 1;
        proof {
            fw = fw.push(epoch_preds);
            assert(reporter.log() =~= old(reporter).log() + Seq::new(
                epoch as nat,
                |e: int| EpochUpdateView { loss: result@.loss[e], epoch: e as u8 },
            ));
            lemma_epochs_trace_agree(
                dataset@,
                train_size as int,
                fw,
                fw_prev,
                result@.loss,
                loss_top,
                pc,
                step,
                epoch - 1,
            );
            assert(engine.ops() =~= ops_epoch + spec_epoch_ops(
                dataset@,
                train_size as int,
                epoch_preds,
                result@.loss[epoch - 1],
                pc,
                step,
            ));
            assert(engine.ops() =~= old(engine).ops() + spec_epochs_trace(
                dataset@,
                train_size as int,
                fw,
                result@.loss,
                old(engine).param_count(),
                step,
                epoch as int,
            ));
        }
    }
    proof {
        if num_epochs > 0 {
            assert(result@.predictions.take(train_size as int) =~= result@.predictions);
        }
        assert(spec_training_performed(
            old(engine).ops(),
            engine.ops(),
            dataset@,
            train_size as int,
            old(engine).param_count(),
            spec_neg(learning_rate),
            result@.loss,
            result@.predictions,
            num_epochs as int,
            fw,
        ));
    }
}

/// A run's configuration is accepted exactly when the training prefix
/// fits in the dataset, the learning rate compares strictly greater than
/// zero, the dataset is non-empty, and every observation carries exactly
/// two features.
pub open spec fn spec_config_ok(
    dataset: Seq<Observation>,
    learning_rate: u64,
    train_size: u8,
) -> bool {
    &&& train_size as int <= dataset.len()
    &&& spec_is_pos(learning_rate)
    &&& dataset.len() > 0
    &&& forall|i: int| 0 <= i < dataset.len() ==> dataset[i].features@.len() == INPUT_FEATURES
}

/// A full training run over a bit-represented dataset.
///
/// Validates the configuration, trains for `num_epochs` epochs on the
/// positional training prefix, forward-passes the held-out suffix,
/// computes the evaluation figure, samples the decision-boundary grid at
/// the engine's trained state, and assembles the result: the loss
/// history, the recorded layer widths, the last training predictions
/// followed by the test predictions, the grid, and the figure.
#[verifier::rlimit(60)]
pub fn run_gradient_sample<E: Engine, A: Arith, R: ProgressReporter>(
    engine: &mut E,
    arith: &A,
    reporter: &mut R,
    dataset: &Vec<Observation>,
    learning_rate: u64,
    num_epochs: u8,
    hidden_layer_sizes: &Vec<usize>,
    train_size: u8,
) -> (r: Result<TrainingResult, ConfigError>)
    ensures
        r is Ok <==> spec_config_ok(dataset@, learning_rate, train_size),
        (r == Err::<TrainingResult, ConfigError>(ConfigError::TrainSizeTooLarge)) <==> train_size
            as int > dataset@.len(),
        (r == Err::<TrainingResult, ConfigError>(ConfigError::NonPositiveLearningRate)) <==> {
            &&& train_size as int <= dataset@.len()
            &&& !spec_is_pos(learning_rate)
        },
        (r == Err::<TrainingResult, ConfigError>(ConfigError::EmptyDataset)) <==> {
            &&& train_size as int <= dataset@.len()
            &&& spec_is_pos(learning_rate)
            &&& dataset@.len() == 0
        },
        (r == Err::<TrainingResult, ConfigError>(ConfigError::FeatureArity)) <==> {
            &&& train_size as int <= dataset@.len()
            &&& spec_is_pos(learning_rate)
            &&& dataset@.len() > 0
            &&& exists|i: int|
                0 <= i < dataset@.len() && dataset@[i].features@.len() != INPUT_FEATURES
        },
        r is Err ==> {
            &&& *final(engine) == *old(engine)
            &&& final(reporter).log() == old(reporter).log()
        },
        r matches Ok(result) ==> ({
            let ts = train_size as int;
            let n = dataset@.len() as int;
            let test_len = n - ts;
            let test_preds = Seq::new(
                test_len as nat,
                |j: int| final(engine).predict_spec(dataset@[ts + j].features@),
            );
            let test_labels = Seq::new(test_len as nat, |j: int| dataset@[ts + j].label);
            let outputs = spec_grid_outputs(final(engine), arith, dataset@, GRID_SQUARES);
            &&& result@.loss.len() == num_epochs
            &&& result@.num_epochs == num_epochs
            &&& result@.network_dimensions == spec_network_dimensions(hidden_layer_sizes@)
            &&& result@.predictions.len() == (if num_epochs > 0 {
                ts
            } else {
                0int
            }) + test_len
            &&& result@.predictions.skip(result@.predictions.len() - test_len) == test_preds
            &&& result@.classification_error == arith.one_minus_ratio_spec(
                spec_mismatches(test_preds, test_labels) as usize,
                test_len as usize,
            )
            &&& (test_len > 0 ==> spec_in_unit(result@.classification_error))
            &&& result@.grid_xs == outputs.0
            &&& result@.grid_ys == outputs.1
            &&& result@.grid_predictions == outputs.2
            &&& result@.grid_xs.len() == GRID_SQUARES * GRID_SQUARES
            &&& result@.grid_ys.len() == GRID_SQUARES * GRID_SQUARES
            &&& result@.grid_predictions.len() == GRID_SQUARES * GRID_SQUARES
            &&& (train_size == 0 ==> (forall|e: int|
                0 <= e < num_epochs ==> result@.loss[e] == ZERO_BITS))
            &&& final(reporter).log() == old(reporter).log() + Seq::new(
                num_epochs as nat,
                |e: int| EpochUpdateView { loss: result@.loss[e], epoch: e as u8 },
            )
            &&& exists|fw: Seq<Seq<u64>>|
                #[trigger] spec_training_performed(
                    old(engine).ops(),
                    final(engine).ops(),
                    dataset@,
                    ts,
                    old(engine).param_count(),
                    spec_neg(learning_rate),
                    result@.loss,
                    result@.predictions,
                    num_epochs as int,
                    fw,
                )
            &&& ({
                let pb = spec_padded_bbox(arith, dataset@);
                &&& (spec_axis_ok(pb.0, pb.1) ==> (forall|k: int|
                    0 <= k < result@.grid_xs.len() ==> spec_within_axis(
                        #[trigger] result@.grid_xs[k],
                        pb.0,
                        pb.1,
                    )))
                &&& (spec_axis_ok(pb.2, pb.3) ==> (forall|k: int|
                    0 <= k < result@.grid_ys.len() ==> spec_within_axis(
                        #[trigger] result@.grid_ys[k],
                        pb.2,
                        pb.3,
                    )))
            })
        }),
{
    if (train_size as usize) > dataset.len() {
        return Err(ConfigError::TrainSizeTooLarge);
    }
    if !is_pos(learning_rate) {
        return Err(ConfigError::NonPositiveLearningRate);
    }
    if dataset.len() == 0 {
        return Err(ConfigError::EmptyDataset);
    }
    let mut i: usize = 0;
    while i < dataset.len()
        invariant
            train_size as int <= dataset@.len(),
            spec_is_pos(learning_rate),
            dataset@.len() > 0,
            i <= dataset@.len(),
            forall|t: int| 0 <= t < i ==> dataset@[t].features@.len() == INPUT_FEATURES,
        decreases dataset@.len() - i,
    {
        if dataset[i].features.len() != INPUT_FEATURES {
            return Err(ConfigError::FeatureArity);
        }
        i = i + 1;
    }
    let ts = train_size as usize;
    let dims = network_dimensions(hidden_layer_sizes);
    let mut result = TrainingResult::new(
        Vec::new(),
        dims,
        Vec::new(),
        ZERO_BITS,
        Vec::new(),
        Vec::new(),
        Vec::new(),
    );
    train_loop(engine, reporter, dataset, ts, learning_rate, num_epochs, &mut result);
    let ghost train_preds = result@.predictions;
    let ghost fw0 = choose|fw: Seq<Seq<u64>>|
        spec_training_performed(
            old(engine).ops(),
            engine.ops(),
            dataset@,
            train_size as int,
            old(engine).param_count(),
            spec_neg(learning_rate),
            result@.loss,
            train_preds,
            num_epochs as int,
            fw,
        );
    let mut test_preds: Vec<u64> = Vec::new();
    let mut test_labels: Vec<u64> = Vec::new();
    let mut t: usize = ts;
    while t < dataset.len()
        invariant
            ts <= t <= dataset@.len(),
            forall|q: int| 0 <= q < dataset@.len() ==> dataset@[q].features@.len() == INPUT_FEATURES,
            test_preds@ == Seq::new(
                (t - ts) as nat,
                |j: int| engine.predict_spec(dataset@[ts + j].features@),
            ),
            test_labels@ == Seq::new((t - ts) as nat, |j: int| dataset@[ts + j].label),
        decreases dataset@.len() - t,
    {
        let p = engine.predict(&dataset[t].features);
        test_preds.push(p);
        test_labels.push(dataset[t].label);
        t = t + 1;
        proof {
            assert(Seq::new(
                (t - ts) as nat,
                |j: int| engine.predict_spec(dataset@[ts + j].features@),
            ) =~= Seq::new(
                (t - 1 - ts) as nat,
                |j: int| engine.predict_spec(dataset@[ts + j].features@),
            ).push(engine.predict_spec(dataset@[t - 1].features@)));
            assert(Seq::new((t - ts) as nat, |j: int| dataset@[ts + j].label) =~= Seq::new(
                (t - 1 - ts) as nat,
                |j: int| dataset@[ts + j].label,
            ).push(dataset@[t - 1].label));
        }
    }
    let ghost test_preds_seq = test_preds@;
    let error = classification_error(arith, &test_preds, &test_labels);
    let sampled = grid_sample(engine, arith, dataset, GRID_SQUARES);
    let mut all_preds = result.get_predictions();
    let mut test_preds_tail = test_preds;
    all_preds.append(&mut test_preds_tail);
    proof {
        assert(all_preds@.skip(all_preds@.len() - test_preds_seq.len()) =~= test_preds_seq);
        assert(all_preds@.take(train_preds.len() as int) =~= train_preds);
    }
    result.set_predictions(all_preds);
    result.set_grid_predictions(sampled.2);
    result.set_grid_xs(sampled.0);
    result.set_grid_ys(sampled.1);
    result.set_classification_error(error);
    proof {
        let ts_i = train_size as int;
        let test_len = dataset@.len() as int - ts_i;
        let ens_preds = Seq::new(
            test_len as nat,
            |j: int| engine.predict_spec(dataset@[ts_i + j].features@),
        );
        let ens_labels = Seq::new(test_len as nat, |j: int| dataset@[ts_i + j].label);
        assert(test_preds_seq =~= ens_preds);
        assert(test_labels@ =~= ens_labels);
        crate::eval::lemma_mismatches_le_len(ens_preds, ens_labels);
        assert(result@.classification_error == arith.one_minus_ratio_spec(
            spec_mismatches(ens_preds, ens_labels) as usize,
            test_len as usize,
        ));
        if num_epochs > 0 {
            assert(train_preds.take(train_size as int) =~= train_preds);
        }
        assert(spec_training_performed(
            old(engine).ops(),
            engine.ops(),
            dataset@,
            train_size as int,
            old(engine).param_count(),
            spec_neg(learning_rate),
            result@.loss,
            result@.predictions,
            num_epochs as int,
            fw0,
        ));
    }
    Ok(result)
}

} // verus!
