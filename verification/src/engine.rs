//! Capability interfaces consumed by the trainer.
//!
//! The reverse-mode autodiff engine, the host's rounding scalar arithmetic
//! and the per-epoch progress callback are external collaborators.  Each is
//! modelled as a trait over bit-represented scalars, so the orchestration
//! logic can be verified against the traits' contracts and exercised
//! against either a real adapter or a deterministic stand-in.

use vstd::prelude::*;
use crate::bits::spec_axis_ok;
use crate::bits::spec_in_unit;
use crate::bits::spec_is_nan;
use crate::bits::spec_within_axis;
use crate::bits::ZERO_BITS;
use crate::result::EpochUpdateView;
use crate::result::UpdateResult;

verus! {

/// One observable operation performed on an engine, with its arguments
/// and, where one is returned, its result bits.
pub enum EngineOp {
    /// A training-phase forward pass over one feature vector.
    Forward { features: Seq<u64>, output: u64 },
    /// A sum-of-squared-errors loss aggregation over the recorded
    /// predictions, paired with these labels.
    Loss { labels: Seq<u64>, output: u64 },
    /// One parameter's accumulated gradient reset to zero.
    ClearGradient { index: usize },
    /// One backpropagation pass from the current loss node.
    Backward,
    /// One parameter nudged by `step` times its accumulated gradient.
    Adjust { index: usize, step: u64 },
}

/// The opaque autodiff/MLP collaborator.
///
/// An engine owns a network's trainable parameters and can run forward
/// evaluation, build a sum-of-squared-errors loss over the predictions it
/// recorded, propagate gradients backward, and nudge parameters.  What the
/// network computes is the engine's own affair: the contracts say that
/// inference is a function of the engine's state (`predict_spec`), which
/// operations leave that function unchanged, and — through the operation
/// trace `ops` — which calls a caller really made, with which arguments,
/// and what each returned.
pub trait Engine {
    /// The engine's inference function in its current parameter state: the
    /// value bits of the network's first output on the given features.
    /// The placeholder definition stands only for adapters outside the
    /// verifier's view; a verified implementation supplies its own.
    open spec fn predict_spec(&self, features: Seq<u64>) -> u64 {
        0u64
    }

    /// How many trainable parameters the engine exposes.  The placeholder
    /// definition stands only for adapters outside the verifier's view.
    open spec fn param_count(&self) -> usize {
        0usize
    }

    /// The operations performed on this engine so far, oldest first, each
    /// with its arguments and returned bits.  Only the calls below extend
    /// it, so a contract over `ops` pins which calls a caller made.  The
    /// placeholder definition stands only for adapters outside the
    /// verifier's view.
    open spec fn ops(&self) -> Seq<EngineOp> {
        Seq::<EngineOp>::empty()
    }

    /// Inference without recording: the first output's value bits.
    fn predict(&self, features: &Vec<u64>) -> (r: u64)
        ensures
            r == self.predict_spec(features@),
    ;

    /// Training-phase forward pass: returns the first output's value bits
    /// and records the output node for the next loss aggregation.
    /// Recording does not change what the network predicts.
    fn forward_train(&mut self, features: &Vec<u64>) -> (r: u64)
        ensures
            r == old(self).predict_spec(features@),
            final(self).param_count() == old(self).param_count(),
            forall|f: Seq<u64>| final(self).predict_spec(f) == old(self).predict_spec(f),
            final(self).ops() == old(self).ops().push(
                EngineOp::Forward { features: features@, output: r },
            ),
    ;

    /// Builds the sum-of-squared-errors loss node over the predictions
    /// recorded since the previous loss, paired in order with these
    /// labels, and returns the loss value bits.  An empty sum is zero.
    fn sse_loss(&mut self, labels: &Vec<u64>) -> (r: u64)
        ensures
            labels@.len() == 0 ==> r == ZERO_BITS,
            final(self).param_count() == old(self).param_count(),
            forall|f: Seq<u64>| final(self).predict_spec(f) == old(self).predict_spec(f),
            final(self).ops() == old(self).ops().push(
                EngineOp::Loss { labels: labels@, output: r },
            ),
    ;

    /// The number of trainable parameters.
    fn parameter_count(&self) -> (n: usize)
        ensures
            n == self.param_count(),
    ;

    /// Resets one parameter's accumulated gradient to zero.
    fn clear_gradient(&mut self, i: usize)
        requires
            i < old(self).param_count(),
        ensures
            final(self).param_count() == old(self).param_count(),
            forall|f: Seq<u64>| final(self).predict_spec(f) == old(self).predict_spec(f),
            final(self).ops() == old(self).ops().push(EngineOp::ClearGradient { index: i }),
    ;

    /// Propagates gradients from the most recently built loss node to all
    /// ancestor parameters.  Gradients change; predictions do not.
    fn backward(&mut self)
        ensures
            final(self).param_count() == old(self).param_count(),
            forall|f: Seq<u64>| final(self).predict_spec(f) == old(self).predict_spec(f),
            final(self).ops() == old(self).ops().push(EngineOp::Backward {}),
    ;

    /// Nudges one parameter: its value gains `step` times its accumulated
    /// gradient, where `step` is a scalar's bit representation.
    fn adjust(&mut self, i: usize, step: u64)
        requires
            i < old(self).param_count(),
        ensures
            final(self).param_count() == old(self).param_count(),
            final(self).ops() == old(self).ops().push(EngineOp::Adjust { index: i, step }),
    ;
}

/// The host's rounding scalar arithmetic over bit representations.
///
/// The trainer itself never rounds: the arithmetic operations, the grid
/// cell-centre formula and the evaluation quotient are delegated to an
/// adapter.  Each operation is a function of its arguments for a given
/// adapter, which is what the idempotence guarantees need; the quotient
/// additionally stays inside the unit interval, and a cell centre stays
/// inside its axis.
pub trait Arith {
    /// What `add_bits` returns.  The placeholder definitions of these
    /// `spec` items stand only for adapters outside the verifier's view;
    /// a verified implementation supplies its own.
    open spec fn add_spec(&self, a: u64, b: u64) -> u64 {
        0u64
    }

    /// What `sub_bits` returns.
    open spec fn sub_spec(&self, a: u64, b: u64) -> u64 {
        0u64
    }

    /// What `mul_bits` returns.
    open spec fn mul_spec(&self, a: u64, b: u64) -> u64 {
        0u64
    }

    /// What `div_bits` returns.
    open spec fn div_spec(&self, a: u64, b: u64) -> u64 {
        0u64
    }

    /// What `grid_coord` returns.
    open spec fn grid_coord_spec(&self, lo: u64, hi: u64, n: usize, idx: usize) -> u64 {
        0u64
    }

    /// What `one_minus_ratio` returns.
    open spec fn one_minus_ratio_spec(&self, num: usize, den: usize) -> u64 {
        0u64
    }

    /// The sum of the two represented scalars.
    fn add_bits(&self, a: u64, b: u64) -> (r: u64)
        ensures
            r == self.add_spec(a, b),
    ;

    /// The difference of the two represented scalars.
    fn sub_bits(&self, a: u64, b: u64) -> (r: u64)
        ensures
            r == self.sub_spec(a, b),
    ;

    /// The product of the two represented scalars.
    fn mul_bits(&self, a: u64, b: u64) -> (r: u64)
        ensures
            r == self.mul_spec(a, b),
    ;

    /// The quotient of the two represented scalars.
    fn div_bits(&self, a: u64, b: u64) -> (r: u64)
        ensures
            r == self.div_spec(a, b),
    ;

    /// The centre of cell `idx` on an axis split into `n` cells:
    /// `lo + (idx + 0.5) * (|hi - lo| / n)` over represented scalars.
    ///
    /// For a well-formed axis (ordered, non-NaN bounds of magnitude at
    /// most `2^511`) and a modest cell count, the centre is not a NaN and
    /// lies in `[lo, hi]` under the IEEE order: the offset is a
    /// non-negative quantity that stays strictly below the axis range, and
    /// rounding is monotonic.  A zero range collapses every centre onto
    /// the bound.
    fn grid_coord(&self, lo: u64, hi: u64, n: usize, idx: usize) -> (r: u64)
        ensures
            r == self.grid_coord_spec(lo, hi, n, idx),
            spec_axis_ok(lo, hi) && 1 <= n <= 65536 && idx < n ==> spec_within_axis(r, lo, hi),
    ;

    /// The evaluation figure `1 - num/den` over represented scalars.  With
    /// a positive denominator and `num <= den` the result lies in the unit
    /// interval; the empty quotient `1 - 0/0` is a NaN.
    fn one_minus_ratio(&self, num: usize, den: usize) -> (r: u64)
        ensures
            r == self.one_minus_ratio_spec(num, den),
            den > 0 && num <= den ==> spec_in_unit(r),
            den == 0 && num == 0 ==> spec_is_nan(r),
    ;
}

/// The per-epoch progress callback.
///
/// A reporter receives one structured update per completed epoch, in epoch
/// order, before that epoch's gradient step is applied.  Delivery failures
/// are the reporter's own affair: an adapter notes them and continues, so
/// reporting can never abort a training run.
pub trait ProgressReporter {
    /// The updates delivered so far, oldest first.  The placeholder
    /// definition stands only for adapters outside the verifier's view;
    /// a verified implementation supplies its own.
    open spec fn log(&self) -> Seq<EpochUpdateView> {
        Seq::<EpochUpdateView>::empty()
    }

    /// Delivers one update.
    fn on_epoch(&mut self, update: &UpdateResult)
        ensures
            final(self).log() == old(self).log().push(update@),
    ;
}

} // verus!
