//! The linear model and the sum-of-squares loss.
//!
//! `linear_model` maps an input sequence and a parameter pair
//! `[intercept, slope]` to predictions `intercept + slope * x`, and `mse`
//! (so named for "mean squared error", though it computes the plain sum of
//! squared differences) maps a prediction sequence and a target
//! sequence to a scalar error. Both reject malformed shapes instead of
//! silently producing a default: too short a parameter vector, sequences of
//! different lengths, or empty sequences.

use vstd::prelude::*;

use crate::fixed::Fx;
use crate::fixed::add_units;
use crate::fixed::mul_units;
use crate::fixed::sub_units;

verus! {

/// The shape errors the library reports: the only failures it can have.
#[derive(Clone, Copy, Debug, PartialEq, Eq, Structural)]
pub enum FitError {
    /// Two sequences that should run in parallel differ in length.
    LengthMismatch,
    /// A reduction over an empty sequence has no value to return.
    EmptyInput,
    /// The linear model needs an intercept and a slope.
    TooFewParams,
}

/// The unit counts held by a sequence of fixed-point numbers.
pub open spec fn units_of(s: Seq<Fx>) -> Seq<int> {
    Seq::new(s.len(), |i: int| s[i]@)
}

/// One prediction of the linear model, in units: `x * slope + intercept`
/// in the saturating, truncating fixed-point arithmetic.
pub open spec fn spec_predict(x: int, intercept: int, slope: int) -> int {
    add_units(mul_units(x, slope), intercept)
}

/// All predictions of the linear model over an input sequence.
pub open spec fn spec_model(xs: Seq<int>, intercept: int, slope: int) -> Seq<int> {
    Seq::new(xs.len(), |i: int| spec_predict(xs[i], intercept, slope))
}

/// Sum of squared differences, folded from the left, each step in the
/// saturating fixed-point arithmetic.
pub open spec fn spec_loss(p: Seq<int>, q: Seq<int>) -> int
    recommends
        p.len() == q.len(),
        p.len() > 0,
    decreases p.len(),
{
    let d = sub_units(p.last(), q.last());
    let sq = mul_units(d, d);
    if p.len() <= 1 {
        sq
    } else {
        add_units(spec_loss(p.drop_last(), q.drop_last()), sq)
    }
}

/// Predictions for well-shaped inputs: the total core of `linear_model`.
pub(crate) fn predict_all(xs: &Vec<Fx>, params: &Vec<Fx>) -> (r: Vec<Fx>)
    requires
        params@.len() >= 2,
    ensures
        r@.len() == xs@.len(),
        units_of(r@) == spec_model(units_of(xs@), params@[0]@, params@[1]@),
{
    let intercept = params[0];
    let slope = params[1];
    let mut out: Vec<Fx> = Vec::new();
    let n = xs.len();
    for i in 0..n
        invariant
            out@.len() == i,
            n == xs@.len(),
            intercept == params@[0],
            slope == params@[1],
            forall|j: int| 0 <= j < i ==> out@[j]@ == spec_predict(xs@[j]@, intercept@, slope@),
    {
        out.push(xs[i].mul_fx(slope).add_fx(intercept));
    }
    proof {
        assert(units_of(out@) =~= spec_model(units_of(xs@), params@[0]@, params@[1]@));
    }
    out
}

/// Sum of squared differences for well-shaped inputs: the total core of `mse`.
pub(crate) fn sum_sq_err(p: &Vec<Fx>, q: &Vec<Fx>) -> (r: Fx)
    requires
        p@.len() == q@.len(),
        p@.len() > 0,
    ensures
        r@ == spec_loss(units_of(p@), units_of(q@)),
{
    let d0 = p[0].sub_fx(q[0]);
    let mut acc = d0.mul_fx(d0);
    let n = p.len();
    proof {
        assert(units_of(p@).take(1).last() == p@[0]@);
        assert(units_of(q@).take(1).last() == q@[0]@);
    }
    for i in 1..n
        invariant
            n == p@.len(),
            p@.len() == q@.len(),
            1 <= i <= n,
            acc@ == spec_loss(units_of(p@).take(i as int), units_of(q@).take(i as int)),
    {
        let d = p[i].sub_fx(q[i]);
        let sq = d.mul_fx(d);
        proof {
            let pu = units_of(p@);
            let qu = units_of(q@);
            assert(pu.take(i + 1).drop_last() =~= pu.take(i as int));
            assert(qu.take(i + 1).drop_last() =~= qu.take(i as int));
            assert(pu.take(i + 1).last() == p@[i as int]@);
            assert(qu.take(i + 1).last() == q@[i as int]@);
        }
        acc = acc.add_fx(sq);
    }
    proof {
        assert(units_of(p@).take(n as int) =~= units_of(p@));
        assert(units_of(q@).take(n as int) =~= units_of(q@));
    }
    acc
}

/// A model: a callable mapping an input sequence and a parameter vector to
/// one prediction per input, pinned down by its own spec function. The
/// optimizers accept any such value.
pub trait Model {
    /// What the model returns, as a function of the inputs and parameters
    /// (in units).
    spec fn spec_predictions(&self, xs: Seq<int>, params: Seq<int>) -> Seq<int>;

    /// Evaluate the model; the parameter vector must supply at least an
    /// intercept and a slope.
    fn predictions(&self, xs: &Vec<Fx>, params: &Vec<Fx>) -> (r: Vec<Fx>)
        requires
            params@.len() >= 2,
        ensures
            r@.len() == xs@.len(),
            units_of(r@) == self.spec_predictions(units_of(xs@), units_of(params@)),
    ;
}

/// A loss: a callable mapping two equal-length, nonempty sequences to a
/// scalar error, pinned down by its own spec function. The optimizers
/// accept any such value.
pub trait Loss {
    /// What the loss returns, as a function of the two sequences (in units).
    spec fn spec_value(&self, p: Seq<int>, q: Seq<int>) -> int;

    /// Evaluate the loss.
    fn value(&self, p: &Vec<Fx>, q: &Vec<Fx>) -> (r: Fx)
        requires
            p@.len() == q@.len(),
            p@.len() > 0,
        ensures
            r@ == self.spec_value(units_of(p@), units_of(q@)),
    ;
}

/// The linear model as a `Model` value that can be handed to an optimizer.
pub struct LinearModel {}

impl Model for LinearModel {
    open spec fn spec_predictions(&self, xs: Seq<int>, params: Seq<int>) -> Seq<int> {
        spec_model(xs, params[0], params[1])
    }

    fn predictions(&self, xs: &Vec<Fx>, params: &Vec<Fx>) -> (r: Vec<Fx>) {
        let r = predict_all(xs, params);
        proof {
            assert(units_of(params@)[0] == params@[0]@);
            assert(units_of(params@)[1] == params@[1]@);
        }
        r
    }
}

/// The sum-of-squares loss as a `Loss` value that can be handed to an
/// optimizer.
pub struct SumSquares {}

impl Loss for SumSquares {
    open spec fn spec_value(&self, p: Seq<int>, q: Seq<int>) -> int {
        spec_loss(p, q)
    }

    fn value(&self, p: &Vec<Fx>, q: &Vec<Fx>) -> (r: Fx) {
        sum_sq_err(p, q)
    }
}

/// The loss is symmetric: built from squared differences, it does not care
/// which of two equal-length sequences plays predictions and which targets.
pub proof fn lemma_loss_symmetric(p: Seq<int>, q: Seq<int>)
    requires
        p.len() == q.len(),
        p.len() > 0,
    ensures
        spec_loss(p, q) == spec_loss(q, p),
    decreases p.len(),
{
    let d1 = sub_units(p.last(), q.last());
    let d2 = sub_units(q.last(), p.last());
    assert(d2 == -d1);
    assert(d1 * d1 == d2 * d2) by (nonlinear_arith)
        requires
            d2 == -d1,
    ;
    if p.len() > 1 {
        lemma_loss_symmetric(p.drop_last(), q.drop_last());
    }
}

/// The loss of a sequence against itself is exactly zero.
pub proof fn lemma_loss_self_zero(p: Seq<int>)
    requires
        p.len() > 0,
    ensures
        spec_loss(p, p) == 0,
    decreases p.len(),
{
    let d = sub_units(p.last(), p.last());
    assert(d == 0);
    assert(d * d == 0);
    assert(mul_units(d, d) == 0);
    if p.len() > 1 {
        lemma_loss_self_zero(p.drop_last());
    }
}

/// The linear model: predictions `params[0] + params[1] * xs[i]`.
///
/// Succeeds exactly when the parameter vector supplies both an intercept and
/// a slope; a shorter vector is an error, never a silent default.
pub fn linear_model(xs: &Vec<Fx>, params: &Vec<Fx>) -> (r: Result<Vec<Fx>, FitError>)
    ensures
        params@.len() >= 2 <==> r is Ok,
        r matches Ok(out) ==> {
            &&& out@.len() == xs@.len()
            &&& units_of(out@) == spec_model(units_of(xs@), params@[0]@, params@[1]@)
            &&& forall|i: int|
                0 <= i < xs@.len() ==> out@[i]@ == add_units(
                    mul_units(xs@[i]@, params@[1]@),
                    params@[0]@,
                )
        },
        r matches Err(e) ==> e == FitError::TooFewParams,
{
    if params.len() < 2 {
        return Err(FitError::TooFewParams);
    }
    let out = predict_all(xs, params);
    proof {
        let xsu = units_of(xs@);
        let a = params@[0]@;
        let b = params@[1]@;
        assert forall|i: int|
            0 <= i < xs@.len() implies out@[i]@ == add_units(mul_units(xs@[i]@, b), a) by {
            assert(units_of(out@)[i] == out@[i]@);
            assert(spec_model(xsu, a, b)[i] == spec_predict(xsu[i], a, b));
            assert(xsu[i] == xs@[i]@);
        }
    }
    Ok(out)
}

/// The loss: the sum over all positions of the squared difference.
///
/// Succeeds exactly when the two sequences have the same nonzero length;
/// mismatched lengths and empty sequences are errors, never a silent zero.
pub fn mse(p: &Vec<Fx>, q: &Vec<Fx>) -> (r: Result<Fx, FitError>)
    ensures
        (p@.len() == q@.len() && p@.len() > 0) <==> r is Ok,
        r matches Ok(l) ==> l@ == spec_loss(units_of(p@), units_of(q@)),
        p@.len() != q@.len() ==> (r matches Err(e) && e == FitError::LengthMismatch),
        (p@.len() == q@.len() && p@.len() == 0) ==> (r matches Err(e) && e
            == FitError::EmptyInput),
{
    if p.len() != q.len() {
        return Err(FitError::LengthMismatch);
    }
    if p.len() == 0 {
        return Err(FitError::EmptyInput);
    }
    Ok(sum_sq_err(p, q))
}

} // verus!
