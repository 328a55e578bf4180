//! The two naive optimizers.
//!
//! Both are generic over the injected model and loss, overwrite a
//! caller-supplied parameter vector in place, and report the same shape
//! errors the model and loss do. Gradient descent is pinned down exactly:
//! its result is a pure function of its inputs, stated by `spec_gd`, so
//! repeated runs agree bit for bit. Random search draws its candidates from
//! a `Sampler`, so only what holds of every possible draw is promised: the
//! returned trace of improvements is strictly decreasing and the final
//! parameters are the last accepted candidate, if there is one.

use vstd::prelude::*;

use crate::fixed::Fx;
use crate::fixed::MAX_UNITS;
use crate::fixed::add_units;
use crate::fixed::div_units;
use crate::fixed::mul_units;
use crate::fixed::sub_units;
use crate::model::FitError;
use crate::model::Loss;
use crate::model::Model;
use crate::model::units_of;

verus! {

/// The forward-difference step, `1e-7`, in units.
pub const H_UNITS: i128 = 100_000;

/// The learning rate, `1e-3`, in units.
pub const LR_UNITS: i128 = 1_000_000_000;

/// Iterations of gradient descent.
pub const GD_ITERS: usize = 100_000;

/// Iterations of random search.
pub const RS_ITERS: usize = 1000;

/// Exclusive upper bound of a random candidate component, `10.0`, in units.
pub const TEN_UNITS: u64 = 10_000_000_000_000;

/// The forward-difference estimate of the partial derivative of the loss at
/// `p` with respect to component `i`: perturb only that component by the
/// step, and divide the loss change by the step.
pub open spec fn spec_gradient<M: Model, L: Loss>(
    model: M,
    loss: L,
    p: Seq<int>,
    i: int,
    xs: Seq<int>,
    ys: Seq<int>,
) -> int
    recommends
        0 <= i < p.len(),
        p.len() >= 2,
        xs.len() == ys.len(),
        xs.len() > 0,
{
    let perturbed = p.update(i, add_units(p[i], H_UNITS as int));
    let l1 = loss.spec_value(model.spec_predictions(xs, perturbed), ys);
    let l0 = loss.spec_value(model.spec_predictions(xs, p), ys);
    div_units(sub_units(l1, l0), H_UNITS as int)
}

/// One iteration of gradient descent: estimate every partial derivative from
/// the same unperturbed baseline, then step every component against its
/// gradient at the fixed learning rate.
pub open spec fn spec_gd_step<M: Model, L: Loss>(
    model: M,
    loss: L,
    p: Seq<int>,
    xs: Seq<int>,
    ys: Seq<int>,
) -> Seq<int> {
    Seq::new(
        p.len(),
        |i: int| sub_units(p[i], mul_units(LR_UNITS as int, spec_gradient(model, loss, p, i, xs, ys))),
    )
}

/// `n` iterations of gradient descent from `p`.
pub open spec fn spec_gd<M: Model, L: Loss>(
    model: M,
    loss: L,
    p: Seq<int>,
    xs: Seq<int>,
    ys: Seq<int>,
    n: nat,
) -> Seq<int>
    decreases n,
{
    if n == 0 {
        p
    } else {
        spec_gd_step(model, loss, spec_gd(model, loss, p, xs, ys, (n - 1) as nat), xs, ys)
    }
}

/// Gradient descent is deterministic: from equal data and equal initial
/// parameters, any two runs produce identical final parameters, since no
/// randomness is involved.
pub proof fn lemma_gd_deterministic<M: Model, L: Loss>(
    model: M,
    loss: L,
    p1: Seq<int>,
    p2: Seq<int>,
    xs1: Seq<int>,
    xs2: Seq<int>,
    ys1: Seq<int>,
    ys2: Seq<int>,
    n: nat,
)
    requires
        p1 == p2,
        xs1 == xs2,
        ys1 == ys2,
    ensures
        spec_gd(model, loss, p1, xs1, ys1, n) == spec_gd(model, loss, p2, xs2, ys2, n),
{
}

/// One improvement found by random search: the new best loss and the best
/// loss it replaced.
#[derive(Clone, Copy, Debug, PartialEq, Eq, Structural)]
pub struct TraceEntry {
    pub found: Fx,
    pub previous: Fx,
}

/// A source of random numbers for the random-search optimizer, injectable so
/// that a deterministic source can stand in for the thread-local one.
pub trait Sampler {
    /// A number below `bound`. Nothing more is promised: the draw may depend
    /// on chance.
    fn next_below(&mut self, bound: u64) -> (r: u64)
        requires
            bound > 0,
        ensures
            r < bound,
    ;
}

/// A fresh candidate parameter vector, each component drawn from `[0, 10)`.
fn draw_candidate<S: Sampler>(len: usize, sampler: &mut S) -> (r: Vec<Fx>)
    ensures
        r@.len() == len,
        forall|k: int| 0 <= k < len ==> 0 <= #[trigger] r@[k]@ < TEN_UNITS as int,
{
    let mut out: Vec<Fx> = Vec::new();
    for i in 0..len
        invariant
            out@.len() == i,
            forall|k: int| 0 <= k < i ==> 0 <= #[trigger] out@[k]@ < TEN_UNITS as int,
    {
        let u = sampler.next_below(TEN_UNITS);
        out.push(Fx::from_units(u as i128));
    }
    out
}

/// An element-for-element copy of a parameter vector.
pub(crate) fn copy_params(v: &Vec<Fx>) -> (r: Vec<Fx>)
    ensures
        r@ == v@,
{
    let mut out: Vec<Fx> = Vec::new();
    let n = v.len();
    for i in 0..n
        invariant
            out@.len() == i,
            n == v@.len(),
            forall|j: int| 0 <= j < i ==> out@[j] == v@[j],
    {
        out.push(v[i]);
    }
    proof {
        assert(out@ =~= v@);
    }
    out
}

/// The selection step of random search, pinned down exactly for every
/// candidate: the candidate replaces the best seen exactly when its loss
/// strictly beats the best loss, and then the improvement is appended to the
/// trace; otherwise nothing changes.
pub fn consider_candidate<M: Model, L: Loss>(
    xs: &Vec<Fx>,
    ys: &Vec<Fx>,
    model: &M,
    loss: &L,
    candidate: Vec<Fx>,
    best_params: &mut Vec<Fx>,
    best_loss: &mut Fx,
    trace: &mut Vec<TraceEntry>,
)
    requires
        xs@.len() == ys@.len(),
        xs@.len() > 0,
        candidate@.len() >= 2,
    ensures
        ({
            let l = loss.spec_value(
                model.spec_predictions(units_of(xs@), units_of(candidate@)),
                units_of(ys@),
            );
            if l < old(best_loss)@ {
                &&& final(best_params)@ == candidate@
                &&& final(best_loss)@ == l
                &&& final(trace)@.len() == old(trace)@.len() + 1
                &&& forall|k: int|
                    0 <= k < old(trace)@.len() ==> final(trace)@[k] == old(trace)@[k]
                &&& final(trace)@.last().found@ == l
                &&& final(trace)@.last().previous == *old(best_loss)
            } else {
                &&& final(best_params)@ == old(best_params)@
                &&& *final(best_loss) == *old(best_loss)
                &&& final(trace)@ == old(trace)@
            }
        }),
{
    let predictions = model.predictions(xs, &candidate);
    let current_loss = loss.value(&predictions, ys);
    if current_loss.lt(*best_loss) {
        trace.push(TraceEntry { found: current_loss, previous: *best_loss });
        *best_loss = current_loss;
        *best_params = candidate;
    }
}

/// Random search: draw candidate parameter vectors uniformly from `[0, 10)`
/// per component, keep the best by loss, and finally overwrite `params` with
/// the best candidate seen.
///
/// The initial `params` value is not a starting point, only a fallback: it
/// survives exactly when no candidate beats the sentinel best loss (the
/// largest representable value). The returned trace records every
/// improvement, newest last; its losses are promised to decrease strictly,
/// whatever the sampler draws. And the search is promised to search: when
/// every candidate it could draw — every vector of the right length with
/// components in `[0, 10)` — has a loss below the sentinel, the trace
/// cannot come back empty.
pub fn random_optimize_fn<M: Model, L: Loss, S: Sampler>(
    xs: &Vec<Fx>,
    ys: &Vec<Fx>,
    model: &M,
    params: &mut Vec<Fx>,
    loss: &L,
    sampler: &mut S,
) -> (r: Result<Vec<TraceEntry>, FitError>)
    ensures
        (xs@.len() == ys@.len() && xs@.len() > 0 && old(params)@.len() >= 2) <==> r is Ok,
        r matches Err(e) ==> final(params)@ == old(params)@ && e == (if xs@.len() != ys@.len() {
            FitError::LengthMismatch
        } else if xs@.len() == 0 {
            FitError::EmptyInput
        } else {
            FitError::TooFewParams
        }),
        r matches Ok(trace) ==> {
            &&& final(params)@.len() == old(params)@.len()
            &&& forall|i: int, j: int|
                0 <= i < j < trace@.len() ==> trace@[j].found@ < trace@[i].found@
            &&& forall|i: int| 0 <= i < trace@.len() ==> trace@[i].found@ < trace@[i].previous@
            &&& (trace@.len() > 0 ==> trace@[0].previous@ == MAX_UNITS as int)
            &&& forall|i: int|
                1 <= i < trace@.len() ==> trace@[i].previous@ == trace@[i - 1].found@
            &&& (trace@.len() == 0 ==> final(params)@ == old(params)@)
            &&& ((forall|c: Seq<int>|
                c.len() == old(params)@.len() && (forall|k: int|
                    0 <= k < c.len() ==> 0 <= #[trigger] c[k] < TEN_UNITS as int)
                    ==> #[trigger] loss.spec_value(
                        model.spec_predictions(units_of(xs@), c),
                        units_of(ys@),
                    ) < MAX_UNITS as int) ==> trace@.len() > 0)
            &&& (trace@.len() > 0 ==> {
                &&& forall|k: int|
                    0 <= k < final(params)@.len() ==> 0 <= #[trigger] final(params)@[k]@
                        < TEN_UNITS as int
                &&& loss.spec_value(
                    model.spec_predictions(units_of(xs@), units_of(final(params)@)),
                    units_of(ys@),
                ) == trace@.last().found@
            })
        },
{
    if xs.len() != ys.len() {
        return Err(FitError::LengthMismatch);
    }
    if xs.len() == 0 {
        return Err(FitError::EmptyInput);
    }
    if params.len() < 2 {
        return Err(FitError::TooFewParams);
    }
    let ghost orig = params@;
    let ghost xsu = units_of(xs@);
    let ghost ysu = units_of(ys@);
    let mut best_params = copy_params(params);
    let mut best_loss = Fx::max_value();
    let mut trace: Vec<TraceEntry> = Vec::new();
    for t in 0..RS_ITERS
        invariant
            xs@.len() == ys@.len(),
            xs@.len() > 0,
            orig.len() >= 2,
            xsu == units_of(xs@),
            ysu == units_of(ys@),
            best_params@.len() == orig.len(),
            forall|i: int, j: int|
                0 <= i < j < trace@.len() ==> trace@[j].found@ < trace@[i].found@,
            forall|i: int| 0 <= i < trace@.len() ==> trace@[i].found@ < trace@[i].previous@,
            (trace@.len() > 0 ==> trace@[0].previous@ == MAX_UNITS as int),
            forall|i: int| 1 <= i < trace@.len() ==> trace@[i].previous@ == trace@[i - 1].found@,
            (trace@.len() == 0 ==> best_params@ == orig && best_loss@ == MAX_UNITS as int),
            (t > 0 && (forall|c: Seq<int>|
                c.len() == orig.len() && (forall|k: int|
                    0 <= k < c.len() ==> 0 <= #[trigger] c[k] < TEN_UNITS as int)
                    ==> #[trigger] loss.spec_value(
                        model.spec_predictions(units_of(xs@), c),
                        units_of(ys@),
                    ) < MAX_UNITS as int) ==> trace@.len() > 0),
            (trace@.len() > 0 ==> {
                &&& best_loss@ == trace@.last().found@
                &&& forall|k: int|
                    0 <= k < best_params@.len() ==> 0 <= #[trigger] best_params@[k]@
                        < TEN_UNITS as int
                &&& loss.spec_value(
                    model.spec_predictions(xsu, units_of(best_params@)),
                    ysu,
                ) == best_loss@
            }),
    {
        let new_params = draw_candidate(best_params.len(), sampler);
        let ghost cand = units_of(new_params@);
        proof {
            assert(cand.len() == orig.len());
            assert forall|k: int| 0 <= k < cand.len() implies 0 <= #[trigger] cand[k]
                < TEN_UNITS as int by {
                assert(cand[k] == new_params@[k]@);
            }
        }
        let ghost pre_len = trace@.len();
        let ghost pre_best = best_loss@;
        consider_candidate(
            xs,
            ys,
            model,
            loss,
            new_params,
            &mut best_params,
            &mut best_loss,
            &mut trace,
        );
        proof {
            let l = loss.spec_value(model.spec_predictions(units_of(xs@), cand), units_of(ys@));
            if l < pre_best {
                assert(trace@.len() == pre_len + 1);
            } else {
                assert(trace@.len() == pre_len);
            }
        }
    }
    *params = best_params;
    Ok(trace)
}

/// Gradient descent with a forward-difference gradient estimate and a fixed
/// learning rate, for a fixed number of iterations.
///
/// On well-shaped inputs it overwrites `params` with exactly
/// `spec_gd(model, loss, params, xs, ys, GD_ITERS)`: a pure function of the
/// inputs, so the optimizer is deterministic. On malformed inputs it reports
/// the shape error and leaves `params` untouched.
pub fn naive_gradient_descent_optimize_fn<M: Model, L: Loss>(
    xs: &Vec<Fx>,
    ys: &Vec<Fx>,
    model: &M,
    params: &mut Vec<Fx>,
    loss: &L,
) -> (r: Result<(), FitError>)
    ensures
        (xs@.len() == ys@.len() && xs@.len() > 0 && old(params)@.len() >= 2) <==> r is Ok,
        r is Ok ==> {
            &&& final(params)@.len() == old(params)@.len()
            &&& units_of(final(params)@) == spec_gd(
                *model,
                *loss,
                units_of(old(params)@),
                units_of(xs@),
                units_of(ys@),
                GD_ITERS as nat,
            )
        },
        r matches Err(e) ==> final(params)@ == old(params)@ && e == (if xs@.len() != ys@.len() {
            FitError::LengthMismatch
        } else if xs@.len() == 0 {
            FitError::EmptyInput
        } else {
            FitError::TooFewParams
        }),
{
    if xs.len() != ys.len() {
        return Err(FitError::LengthMismatch);
    }
    if xs.len() == 0 {
        return Err(FitError::EmptyInput);
    }
    if params.len() < 2 {
        return Err(FitError::TooFewParams);
    }
    let ghost orig = params@;
    let ghost xsu = units_of(xs@);
    let ghost ysu = units_of(ys@);
    let h = Fx::from_units(H_UNITS);
    let lr = Fx::from_units(LR_UNITS);
    let mut best = copy_params(params);
    for t in 0..GD_ITERS
        invariant
            best@.len() == orig.len(),
            orig.len() >= 2,
            xs@.len() == ys@.len(),
            xs@.len() > 0,
            xsu == units_of(xs@),
            ysu == units_of(ys@),
            h@ == H_UNITS as int,
            lr@ == LR_UNITS as int,
            units_of(best@) == spec_gd(*model, *loss, units_of(orig), xsu, ysu, t as nat),
    {
        let preds = model.predictions(xs, &best);
        let baseline = loss.value(&preds, ys);
        let m = best.len();
        let mut grad: Vec<Fx> = Vec::new();
        for i in 0..m
            invariant
                m == best@.len(),
                best@.len() >= 2,
                xs@.len() == ys@.len(),
                xs@.len() > 0,
                xsu == units_of(xs@),
                ysu == units_of(ys@),
                h@ == H_UNITS as int,
                baseline@ == loss.spec_value(model.spec_predictions(xsu, units_of(best@)), ysu),
                grad@.len() == i,
                forall|j: int|
                    0 <= j < i ==> grad@[j]@ == spec_gradient(
                        *model,
                        *loss,
                        units_of(best@),
                        j,
                        xsu,
                        ysu,
                    ),
        {
            let mut temp = copy_params(&best);
            let bumped = temp[i].add_fx(h);
            temp.set(i, bumped);
            proof {
                let p = units_of(best@);
                let perturbed = p.update(i as int, add_units(p[i as int], H_UNITS as int));
                assert(units_of(temp@) =~= perturbed);
            }
            let tpreds = model.predictions(xs, &temp);
            let l1 = loss.value(&tpreds, ys);
            let g = l1.sub_fx(baseline).div_fx(h);
            proof {
                let p = units_of(best@);
                assert(g@ == spec_gradient(*model, *loss, p, i as int, xsu, ysu));
            }
            grad.push(g);
        }
        let mut next: Vec<Fx> = Vec::new();
        for i in 0..m
            invariant
                m == best@.len(),
                grad@.len() == m,
                lr@ == LR_UNITS as int,
                xsu == units_of(xs@),
                ysu == units_of(ys@),
                forall|j: int|
                    0 <= j < m ==> grad@[j]@ == spec_gradient(
                        *model,
                        *loss,
                        units_of(best@),
                        j,
                        xsu,
                        ysu,
                    ),
                next@.len() == i,
                forall|j: int|
                    0 <= j < i ==> next@[j]@ == sub_units(
                        best@[j]@,
                        mul_units(LR_UNITS as int, grad@[j]@),
                    ),
        {
            next.push(best[i].sub_fx(lr.mul_fx(grad[i])));
        }
        proof {
            assert(units_of(next@) =~= spec_gd_step(*model, *loss, units_of(best@), xsu, ysu));
            assert(spec_gd(*model, *loss, units_of(orig), xsu, ysu, (t + 1) as nat)
                == spec_gd_step(
                *model,
                *loss,
                spec_gd(*model, *loss, units_of(orig), xsu, ysu, t as nat),
                xsu,
                ysu,
            ));
        }
        best = next;
    }
    *params = best;
    Ok(())
}

} // verus!
