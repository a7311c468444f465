//! Decision-boundary grid sampling: the padded bounding box over all
//! observed feature points and a regular grid of model predictions.

use vstd::prelude::*;
use vstd::arithmetic::div_mod::lemma_fundamental_div_mod_converse;
use crate::bits::spec_abs;
use crate::bits::abs_bits;
use crate::bits::spec_axis_ok;
use crate::bits::spec_lt;
use crate::bits::spec_within_axis;
use crate::bits::lt;
use crate::bits::TENTH_BITS;
use crate::data::Observation;
use crate::engine::Arith;
use crate::engine::Engine;

verus! {

/// Left fold of the running minimum under the IEEE order: an element
/// replaces the accumulator exactly when it compares strictly below it.
pub open spec fn spec_min_fold(s: Seq<u64>, init: u64) -> u64
    decreases s.len(),
{
    if s.len() == 0 {
        init
    } else {
        let m = spec_min_fold(s.drop_last(), init);
        if spec_lt(s.last(), m) {
            s.last()
        } else {
            m
        }
    }
}

/// Left fold of the running maximum under the IEEE order.
pub open spec fn spec_max_fold(s: Seq<u64>, init: u64) -> u64
    decreases s.len(),
{
    if s.len() == 0 {
        init
    } else {
        let m = spec_max_fold(s.drop_last(), init);
        if spec_lt(m, s.last()) {
            s.last()
        } else {
            m
        }
    }
}

/// The first feature of every observation, in order.
pub open spec fn spec_xs(obs: Seq<Observation>) -> Seq<u64> {
    obs.map(|i: int, o: Observation| o.features@[0])
}

/// The second feature of every observation, in order.
pub open spec fn spec_ys(obs: Seq<Observation>) -> Seq<u64> {
    obs.map(|i: int, o: Observation| o.features@[1])
}

/// The bounding box `(min_x, max_x, min_y, max_y)` over the feature points
/// of a non-empty observation sequence, folded from the first point on
/// under the IEEE order.
pub open spec fn spec_bbox(obs: Seq<Observation>) -> (u64, u64, u64, u64) {
    let xs = spec_xs(obs);
    let ys = spec_ys(obs);
    (
        spec_min_fold(xs, xs[0]),
        spec_max_fold(xs, xs[0]),
        spec_min_fold(ys, ys[0]),
        spec_max_fold(ys, ys[0]),
    )
}

/// The bounding box with each axis padded outward by one tenth of its
/// range, computed with the host arithmetic.
pub open spec fn spec_padded_bbox<A: Arith>(arith: &A, obs: Seq<Observation>) -> (
    u64,
    u64,
    u64,
    u64,
) {
    let bb = spec_bbox(obs);
    let x_pad = arith.mul_spec(TENTH_BITS, spec_abs(arith.sub_spec(bb.1, bb.0)));
    let y_pad = arith.mul_spec(TENTH_BITS, spec_abs(arith.sub_spec(bb.3, bb.2)));
    (
        arith.sub_spec(bb.0, x_pad),
        arith.add_spec(bb.1, x_pad),
        arith.sub_spec(bb.2, y_pad),
        arith.add_spec(bb.3, y_pad),
    )
}

/// The `n * n` cell centres of the boxed grid, row-major over the first
/// axis with the second axis nested: cell `(i, j)` samples the centre
/// `(x_min + (i + 0.5) * x_step, y_min + (j + 0.5) * y_step)` through the
/// host arithmetic's cell-centre capability.
pub open spec fn spec_grid_points<A: Arith>(
    arith: &A,
    x_min: u64,
    x_max: u64,
    y_min: u64,
    y_max: u64,
    n: usize,
) -> Seq<(u64, u64)> {
    Seq::new(
        (n * n) as nat,
        |k: int|
            (
                arith.grid_coord_spec(x_min, x_max, n, (k / (n as int)) as usize),
                arith.grid_coord_spec(y_min, y_max, n, (k % (n as int)) as usize),
            ),
    )
}

/// The grid points sampled for a dataset: the padded bounding box over
/// all its feature points, partitioned into `n * n` cells.
pub open spec fn spec_dataset_grid<A: Arith>(arith: &A, obs: Seq<Observation>, n: usize) -> Seq<
    (u64, u64),
> {
    let pb = spec_padded_bbox(arith, obs);
    spec_grid_points(arith, pb.0, pb.1, pb.2, pb.3, n)
}

/// Everything the grid sampler returns: the two coordinate sequences and
/// the model's raw prediction at each point.
pub open spec fn spec_grid_outputs<E: Engine, A: Arith>(
    engine: &E,
    arith: &A,
    obs: Seq<Observation>,
    n: usize,
) -> (Seq<u64>, Seq<u64>, Seq<u64>) {
    let pts = spec_dataset_grid(arith, obs, n);
    (
        pts.map(|k: int, p: (u64, u64)| p.0),
        pts.map(|k: int, p: (u64, u64)| p.1),
        pts.map(|k: int, p: (u64, u64)| engine.predict_spec(seq![p.0, p.1])),
    )
}

/// The bounding box `(min_x, max_x, min_y, max_y)` over the feature
/// points of every observation.
pub fn bounding_box(dataset: &Vec<Observation>) -> (r: (u64, u64, u64, u64))
    requires
        dataset@.len() > 0,
        forall|i: int| 0 <= i < dataset@.len() ==> dataset@[i].features@.len() == 2,
    ensures
        r == spec_bbox(dataset@),
{
    let ghost xs = spec_xs(dataset@);
    let ghost ys = spec_ys(dataset@);
    let mut min_x = dataset[0].features[0];
    let mut max_x = dataset[0].features[0];
    let mut min_y = dataset[0].features[1];
    let mut max_y = dataset[0].features[1];
    let mut i: usize = 0;
    while i < dataset.len()
        invariant
            dataset@.len() > 0,
            forall|t: int| 0 <= t < dataset@.len() ==> dataset@[t].features@.len() == 2,
            i <= dataset@.len(),
            xs == spec_xs(dataset@),
            ys == spec_ys(dataset@),
            min_x == spec_min_fold(xs.take(i as int), xs[0]),
            max_x == spec_max_fold(xs.take(i as int), xs[0]),
            min_y == spec_min_fold(ys.take(i as int), ys[0]),
            max_y == spec_max_fold(ys.take(i as int), ys[0]),
        decreases dataset@.len() - i,
    {
        let x = dataset[i].features[0];
        let y = dataset[i].features[1];
        if lt(x, min_x) {
            min_x = x;
        }
        if lt(max_x, x) {
            max_x = x;
        }
        if lt(y, min_y) {
            min_y = y;
        }
        if lt(max_y, y) {
            max_y = y;
        }
        i = i + 1;
        proof {
            assert(xs.take(i as int).drop_last() =~= xs.take(i - 1));
            assert(ys.take(i as int).drop_last() =~= ys.take(i - 1));
            assert(xs.take(i as int).last() == xs[i - 1]);
            assert(ys.take(i as int).last() == ys[i - 1]);
        }
    }
    proof {
        assert(xs.take(xs.len() as int) =~= xs);
        assert(ys.take(ys.len() as int) =~= ys);
    }
    (min_x, max_x, min_y, max_y)
}

/// Partitions the box into `num_squares * num_squares` cells and returns
/// the cell centres, row-major over the first axis.
///
/// For a well-formed axis (ordered, non-NaN bounds of bounded magnitude)
/// and a modest cell count, every centre on that axis lies inside the
/// closed interval of its bounds under the IEEE order; when the bounds
/// coincide, every centre collapses onto them.
pub fn generate_grid<A: Arith>(
    arith: &A,
    x_min: u64,
    x_max: u64,
    y_min: u64,
    y_max: u64,
    num_squares: usize,
) -> (grid: Vec<(u64, u64)>)
    ensures
        grid@ == spec_grid_points(arith, x_min, x_max, y_min, y_max, num_squares),
        grid@.len() == num_squares * num_squares,
        spec_axis_ok(x_min, x_max) && num_squares <= 65536 ==> (forall|k: int|
            0 <= k < grid@.len() ==> spec_within_axis(#[trigger] grid@[k].0, x_min, x_max)),
        spec_axis_ok(y_min, y_max) && num_squares <= 65536 ==> (forall|k: int|
            0 <= k < grid@.len() ==> spec_within_axis(#[trigger] grid@[k].1, y_min, y_max)),
{
    let ghost pts = spec_grid_points(arith, x_min, x_max, y_min, y_max, num_squares);
    let mut grid: Vec<(u64, u64)> = Vec::new();
    let mut i: usize = 0;
    while i < num_squares
        invariant
            pts == spec_grid_points(arith, x_min, x_max, y_min, y_max, num_squares),
            i <= num_squares,
            grid@.len() == i * num_squares,
            grid@ == pts.take((i * num_squares) as int),
            spec_axis_ok(x_min, x_max) && num_squares <= 65536 ==> (forall|k: int|
                0 <= k < grid@.len() ==> spec_within_axis(#[trigger] grid@[k].0, x_min, x_max)),
            spec_axis_ok(y_min, y_max) && num_squares <= 65536 ==> (forall|k: int|
                0 <= k < grid@.len() ==> spec_within_axis(#[trigger] grid@[k].1, y_min, y_max)),
        decreases num_squares - i,
    {
        let mut j: usize = 0;
        while j < num_squares
            invariant
                pts == spec_grid_points(arith, x_min, x_max, y_min, y_max, num_squares),
                i < num_squares,
                j <= num_squares,
                grid@.len() == i * num_squares + j,
                grid@ == pts.take((i * num_squares + j) as int),
                spec_axis_ok(x_min, x_max) && num_squares <= 65536 ==> (forall|k: int|
                    0 <= k < grid@.len() ==> spec_within_axis(
                        #[trigger] grid@[k].0,
                        x_min,
                        x_max,
                    )),
                spec_axis_ok(y_min, y_max) && num_squares <= 65536 ==> (forall|k: int|
                    0 <= k < grid@.len() ==> spec_within_axis(
                        #[trigger] grid@[k].1,
                        y_min,
                        y_max,
                    )),
            decreases num_squares - j,
        {
            let x = arith.grid_coord(x_min, x_max, num_squares, i);
            let y = arith.grid_coord(y_min, y_max, num_squares, j);
            proof {
                let k: int = i as int * num_squares as int + j as int;
                assert(k < num_squares * num_squares) by (nonlinear_arith)
                    requires
                        i < num_squares,
                        j < num_squares,
                        k == i as int * num_squares as int + j as int,
                ;
                lemma_fundamental_div_mod_converse(k, num_squares as int, i as int, j as int);
                assert(pts[k] == (x, y));
                assert(pts.take(k + 1) =~= pts.take(k).push(pts[k]));
            }
            grid.push((x, y));
            j = j + 1;
        }
        i = i + 1;
        proof {
            assert(i * num_squares == (i - 1) * num_squares + num_squares) by (nonlinear_arith);
        }
    }
    proof {
        assert(num_squares * num_squares <= pts.len());
        assert(pts.take((num_squares * num_squares) as int) =~= pts);
    }
    grid
}

/// Samples the trained model over the dataset's padded bounding-box grid:
/// returns the first coordinates, the second coordinates and the raw
/// predictions, positionally aligned, each of length
/// `num_squares * num_squares`.
pub fn grid_sample<E: Engine, A: Arith>(
    engine: &E,
    arith: &A,
    dataset: &Vec<Observation>,
    num_squares: usize,
) -> (r: (Vec<u64>, Vec<u64>, Vec<u64>))
    requires
        dataset@.len() > 0,
        forall|i: int| 0 <= i < dataset@.len() ==> dataset@[i].features@.len() == 2,
    ensures
        (r.0@, r.1@, r.2@) == spec_grid_outputs(engine, arith, dataset@, num_squares),
        r.0@.len() == num_squares * num_squares,
        r.1@.len() == num_squares * num_squares,
        r.2@.len() == num_squares * num_squares,
        ({
            let pb = spec_padded_bbox(arith, dataset@);
            &&& (spec_axis_ok(pb.0, pb.1) && num_squares <= 65536 ==> (forall|k: int|
                0 <= k < r.0@.len() ==> spec_within_axis(#[trigger] r.0@[k], pb.0, pb.1)))
            &&& (spec_axis_ok(pb.2, pb.3) && num_squares <= 65536 ==> (forall|k: int|
                0 <= k < r.1@.len() ==> spec_within_axis(#[trigger] r.1@[k], pb.2, pb.3)))
        }),
{
    let ghost pts = spec_dataset_grid(arith, dataset@, num_squares);
    let bb = bounding_box(dataset);
    let x_pad = arith.mul_bits(TENTH_BITS, abs_bits(arith.sub_bits(bb.1, bb.0)));
    let y_pad = arith.mul_bits(TENTH_BITS, abs_bits(arith.sub_bits(bb.3, bb.2)));
    let x_min = arith.sub_bits(bb.0, x_pad);
    let x_max = arith.add_bits(bb.1, x_pad);
    let y_min = arith.sub_bits(bb.2, y_pad);
    let y_max = arith.add_bits(bb.3, y_pad);
    let grid = generate_grid(arith, x_min, x_max, y_min, y_max, num_squares);
    let mut grid_xs: Vec<u64> = Vec::new();
    let mut grid_ys: Vec<u64> = Vec::new();
    let mut grid_preds: Vec<u64> = Vec::new();
    let mut k: usize = 0;
    while k < grid.len()
        invariant
            pts == spec_dataset_grid(arith, dataset@, num_squares),
            grid@ == pts,
            k <= grid@.len(),
            grid_xs@ == pts.take(k as int).map(|t: int, p: (u64, u64)| p.0),
            grid_ys@ == pts.take(k as int).map(|t: int, p: (u64, u64)| p.1),
            grid_preds@ == pts.take(k as int).map(
                |t: int, p: (u64, u64)| engine.predict_spec(seq![p.0, p.1]),
            ),
        decreases grid@.len() - k,
    {
        let (x, y) = (grid[k].0, grid[k].1);
        let mut features: Vec<u64> = Vec::new();
        features.push(x);
        features.push(y);
        proof {
            assert(features@ =~= seq![x, y]);
        }
        let p = engine.predict(&features);
        grid_xs.push(x);
        grid_ys.push(y);
        grid_preds.push(p);
        k = k + 1;
        proof {
            assert(pts.take(k as int).map(|t: int, p: (u64, u64)| p.0) =~= pts.take(
                k - 1,
            ).map(|t: int, p: (u64, u64)| p.0).push(pts[k - 1].0));
            assert(pts.take(k as int).map(|t: int, p: (u64, u64)| p.1) =~= pts.take(
                k - 1,
            ).map(|t: int, p: (u64, u64)| p.1).push(pts[k - 1].1));
            assert(pts.take(k as int).map(
                |t: int, p: (u64, u64)| engine.predict_spec(seq![p.0, p.1]),
            ) =~= pts.take(k - 1).map(
                |t: int, p: (u64, u64)| engine.predict_spec(seq![p.0, p.1]),
            ).push(engine.predict_spec(seq![pts[k - 1].0, pts[k - 1].1])));
        }
    }
    proof {
        assert(pts.take(pts.len() as int) =~= pts);
    }
    (grid_xs, grid_ys, grid_preds)
}

/// Grid-sampler idempotence: two samplings of the same trained engine,
/// the same host arithmetic and the same dataset, with no training step
/// in between, yield identical coordinates and identical predictions.
pub proof fn lemma_grid_sampler_idempotent<E: Engine, A: Arith>(
    engine: &E,
    arith: &A,
    obs: Seq<Observation>,
    n: usize,
    first: (Seq<u64>, Seq<u64>, Seq<u64>),
    second: (Seq<u64>, Seq<u64>, Seq<u64>),
)
    requires
        first == spec_grid_outputs(engine, arith, obs, n),
        second == spec_grid_outputs(engine, arith, obs, n),
    ensures
        first == second,
{
}

} // verus!
