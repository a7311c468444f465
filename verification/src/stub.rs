//! Deterministic in-library stand-ins for the capability interfaces.
//!
//! The stand-ins carry no numeric meaning: they exist so that every
//! capability contract is discharged by at least one verified
//! implementation, and so that the orchestrator can be exercised without
//! a real autodiff engine or host arithmetic.

use vstd::prelude::*;
use crate::bits::ONE_BITS;
use crate::bits::QNAN_BITS;
use crate::bits::ZERO_BITS;
use crate::engine::Arith;
use crate::engine::Engine;
use crate::engine::EngineOp;
use crate::engine::ProgressReporter;
use crate::result::EpochUpdateView;
use crate::result::UpdateResult;

verus! {

/// Exclusive-or of all elements of a sequence.
pub open spec fn xor_all(s: Seq<u64>) -> u64
    decreases s.len(),
{
    if s.len() == 0 {
        0u64
    } else {
        xor_all(s.drop_last()) ^ s.last()
    }
}

/// Exclusive-or of all elements of a vector.
fn xor_vec(v: &Vec<u64>) -> (r: u64)
    ensures
        r == xor_all(v@),
{
    let mut acc: u64 = 0;
    let mut i: usize = 0;
    while i < v.len()
        invariant
            i <= v@.len(),
            acc == xor_all(v@.take(i as int)),
        decreases v@.len() - i,
    {
        acc = acc ^ v[i];
        i = i + 1;
        proof {
            assert(v@.take(i as int).drop_last() =~= v@.take(i - 1));
            assert(v@.take(i as int).last() == v@[i - 1]);
        }
    }
    proof {
        assert(v@.take(v@.len() as int) =~= v@);
    }
    acc
}

/// A deterministic engine stand-in: its "network" mixes the feature bits
/// with an internal seed, a gradient step perturbs the seed, and a ghost
/// field carries the operation trace.
pub struct StubEngine {
    seed: u64,
    params: usize,
    trace: Ghost<Seq<EngineOp>>,
}

impl StubEngine {
    /// A stand-in exposing `params` trainable parameters, with an empty
    /// operation trace.
    pub fn new(params: usize, seed: u64) -> (r: StubEngine)
        ensures
            r.param_count() == params,
            forall|f: Seq<u64>| r.predict_spec(f) == xor_all(f) ^ seed,
            r.ops() == Seq::<EngineOp>::empty(),
    {
        StubEngine { seed, params, trace: Ghost(Seq::empty()) }
    }
}

impl Engine for StubEngine {
    closed spec fn predict_spec(&self, features: Seq<u64>) -> u64 {
        xor_all(features) ^ self.seed
    }

    closed spec fn param_count(&self) -> usize {
        self.params
    }

    closed spec fn ops(&self) -> Seq<EngineOp> {
        self.trace@
    }

    fn predict(&self, features: &Vec<u64>) -> (r: u64) {
        xor_vec(features) ^ self.seed
    }

    fn forward_train(&mut self, features: &Vec<u64>) -> (r: u64) {
        let r = xor_vec(features) ^ self.seed;
        self.trace = Ghost(
            self.trace@.push(EngineOp::Forward { features: features@, output: r }),
        );
        r
    }

    fn sse_loss(&mut self, labels: &Vec<u64>) -> (r: u64) {
        let r = if labels.len() == 0 {
            ZERO_BITS
        } else {
            xor_vec(labels) ^ self.seed
        };
        self.trace = Ghost(self.trace@.push(EngineOp::Loss { labels: labels@, output: r }));
        r
    }

    fn parameter_count(&self) -> (n: usize) {
        self.params
    }

    fn clear_gradient(&mut self, i: usize) {
        self.trace = Ghost(self.trace@.push(EngineOp::ClearGradient { index: i }));
    }

    fn backward(&mut self) {
        self.trace = Ghost(self.trace@.push(EngineOp::Backward {}));
    }

    fn adjust(&mut self, i: usize, step: u64) {
        self.seed = self.seed ^ step;
        self.trace = Ghost(self.trace@.push(EngineOp::Adjust { index: i, step }));
    }
}

/// A deterministic arithmetic stand-in over bit representations.
pub struct StubArith;

impl Arith for StubArith {
    open spec fn add_spec(&self, a: u64, b: u64) -> u64 {
        a ^ b
    }

    open spec fn sub_spec(&self, a: u64, b: u64) -> u64 {
        a ^ b ^ 1u64
    }

    open spec fn mul_spec(&self, a: u64, b: u64) -> u64 {
        a & b
    }

    open spec fn div_spec(&self, a: u64, b: u64) -> u64 {
        a | b
    }

    open spec fn grid_coord_spec(&self, lo: u64, hi: u64, n: usize, idx: usize) -> u64 {
        lo
    }

    open spec fn one_minus_ratio_spec(&self, num: usize, den: usize) -> u64 {
        if den == 0 {
            QNAN_BITS
        } else if num == 0 {
            ONE_BITS
        } else {
            ZERO_BITS
        }
    }

    fn add_bits(&self, a: u64, b: u64) -> (r: u64) {
        a ^ b
    }

    fn sub_bits(&self, a: u64, b: u64) -> (r: u64) {
        a ^ b ^ 1u64
    }

    fn mul_bits(&self, a: u64, b: u64) -> (r: u64) {
        a & b
    }

    fn div_bits(&self, a: u64, b: u64) -> (r: u64) {
        a | b
    }

    fn grid_coord(&self, lo: u64, hi: u64, n: usize, idx: usize) -> (r: u64) {
        lo
    }

    fn one_minus_ratio(&self, num: usize, den: usize) -> (r: u64) {
        proof {
            crate::bits::lemma_qnan_is_nan();
        }
        if den == 0 {
            QNAN_BITS
        } else if num == 0 {
            ONE_BITS
        } else {
            ZERO_BITS
        }
    }
}

/// A reporter that records every delivered update in order.
pub struct RecordingReporter {
    entries: Vec<(u64, u8)>,
}

impl RecordingReporter {
    /// A reporter with an empty log.
    pub fn new() -> (r: RecordingReporter)
        ensures
            r.log() == Seq::<EpochUpdateView>::empty(),
    {
        let r = RecordingReporter { entries: Vec::new() };
        proof {
            assert(r.log() =~= Seq::<EpochUpdateView>::empty());
        }
        r
    }

    /// The recorded updates as (loss bits, epoch) pairs, oldest first.
    pub fn recorded(&self) -> (r: &Vec<(u64, u8)>)
        ensures
            r@.len() == self.log().len(),
            forall|i: int|
                0 <= i < r@.len() ==> self.log()[i] == (EpochUpdateView {
                    loss: r@[i].0,
                    epoch: r@[i].1,
                }),
    {
        &self.entries
    }
}

impl ProgressReporter for RecordingReporter {
    closed spec fn log(&self) -> Seq<EpochUpdateView> {
        self.entries@.map(
            |i: int, e: (u64, u8)| EpochUpdateView { loss: e.0, epoch: e.1 },
        )
    }

    fn on_epoch(&mut self, update: &UpdateResult) {
        let loss = update.get_loss();
        let epoch = update.get_epoch();
        self.entries.push((loss, epoch));
        proof {
            assert(self.log() =~= old(self).log().push(update@));
        }
    }
}

} // verus!
