use linfit::fixed::Fx;
use linfit::model::FitError;
use linfit::model::mse;
use linfit::model::linear_model;
use linfit::model::LinearModel;
use linfit::model::SumSquares;
use linfit::optimize::Sampler;
use linfit::optimize::consider_candidate;
use linfit::optimize::naive_gradient_descent_optimize_fn;
use linfit::optimize::random_optimize_fn;
use linfit::rng::ThreadRngSampler;

const ONE: i128 = 1_000_000_000_000;

fn fx(units: i128) -> Fx {
    Fx::from_units(units)
}

fn dataset() -> (Vec<Fx>, Vec<Fx>) {
    let xs = vec![fx(ONE / 10), fx(ONE / 2), fx(3 * ONE / 10)];
    let ys = vec![fx(ONE / 5), fx(ONE), fx(6 * ONE / 10)];
    (xs, ys)
}

// A fixed linear-congruential sequence, so runs can be replayed exactly.
struct FixedSeed(u64);

impl Sampler for FixedSeed {
    fn next_below(&mut self, bound: u64) -> u64 {
        self.0 = self
            .0
            .wrapping_mul(6364136223846793005)
            .wrapping_add(1442695040888963407);
        (self.0 >> 16) % bound
    }
}

#[test]
fn gradient_descent_reduces_loss() {
    let (xs, ys) = dataset();
    let mut params = vec![fx(0), fx(ONE)];
    let initial_loss = mse(&linear_model(&xs, &params).unwrap(), &ys).unwrap();
    assert_eq!(initial_loss.to_units(), 35 * ONE / 100);
    naive_gradient_descent_optimize_fn(&xs, &ys, &LinearModel {}, &mut params, &SumSquares {}).unwrap();
    let final_loss = mse(&linear_model(&xs, &params).unwrap(), &ys).unwrap();
    assert!(final_loss.to_units() < initial_loss.to_units());
}

#[test]
fn gradient_descent_is_deterministic() {
    let (xs, ys) = dataset();
    let mut first = vec![fx(0), fx(ONE)];
    let mut second = vec![fx(0), fx(ONE)];
    naive_gradient_descent_optimize_fn(&xs, &ys, &LinearModel {}, &mut first, &SumSquares {}).unwrap();
    naive_gradient_descent_optimize_fn(&xs, &ys, &LinearModel {}, &mut second, &SumSquares {}).unwrap();
    assert_eq!(first, second);
}

#[test]
fn gradient_descent_shape_errors() {
    let (xs, ys) = dataset();
    let mut params = vec![fx(0), fx(ONE)];
    let short_ys = vec![fx(ONE)];
    assert_eq!(
        naive_gradient_descent_optimize_fn(&xs, &short_ys, &LinearModel {}, &mut params, &SumSquares {}),
        Err(FitError::LengthMismatch)
    );
    let empty: Vec<Fx> = Vec::new();
    assert_eq!(
        naive_gradient_descent_optimize_fn(&empty, &empty, &LinearModel {}, &mut params, &SumSquares {}),
        Err(FitError::EmptyInput)
    );
    let mut one_param = vec![fx(0)];
    assert_eq!(
        naive_gradient_descent_optimize_fn(&xs, &ys, &LinearModel {}, &mut one_param, &SumSquares {}),
        Err(FitError::TooFewParams)
    );
    // The failures left the vectors untouched.
    assert_eq!(params, vec![fx(0), fx(ONE)]);
    assert_eq!(one_param, vec![fx(0)]);
}

#[test]
fn random_search_trace_strictly_improves() {
    let (xs, ys) = dataset();
    let mut params = vec![fx(0), fx(ONE)];
    let mut sampler = FixedSeed(7);
    let trace = random_optimize_fn(&xs, &ys, &LinearModel {}, &mut params, &SumSquares {}, &mut sampler).unwrap();
    // Any loss of in-range data beats the sentinel, so something was found.
    assert!(!trace.is_empty());
    assert_eq!(trace[0].previous, Fx::max_value());
    for i in 0..trace.len() {
        assert!(trace[i].found.to_units() < trace[i].previous.to_units());
        if i > 0 {
            assert_eq!(trace[i].previous, trace[i - 1].found);
        }
        for j in 0..i {
            assert!(trace[i].found.to_units() < trace[j].found.to_units());
        }
    }
    // The caller's vector now holds the last accepted candidate.
    let final_loss = mse(&linear_model(&xs, &params).unwrap(), &ys).unwrap();
    assert_eq!(final_loss, trace[trace.len() - 1].found);
}

#[test]
fn random_search_is_replayable() {
    let (xs, ys) = dataset();
    let mut first = vec![fx(0), fx(ONE)];
    let mut second = vec![fx(0), fx(ONE)];
    let t1 = random_optimize_fn(&xs, &ys, &LinearModel {}, &mut first, &SumSquares {}, &mut FixedSeed(99)).unwrap();
    let t2 = random_optimize_fn(&xs, &ys, &LinearModel {}, &mut second, &SumSquares {}, &mut FixedSeed(99)).unwrap();
    assert_eq!(first, second);
    assert_eq!(t1, t2);
}

#[test]
fn random_search_with_thread_rng() {
    let (xs, ys) = dataset();
    let mut params = vec![fx(0), fx(ONE)];
    let mut sampler = ThreadRngSampler::new();
    let trace = random_optimize_fn(&xs, &ys, &LinearModel {}, &mut params, &SumSquares {}, &mut sampler).unwrap();
    assert!(!trace.is_empty());
    // Every accepted candidate component was drawn from [0, 10).
    for p in &params {
        assert!(0 <= p.to_units() && p.to_units() < 10 * ONE);
    }
    for i in 1..trace.len() {
        assert!(trace[i].found.to_units() < trace[i - 1].found.to_units());
    }
}

#[test]
fn random_search_shape_errors() {
    let (xs, ys) = dataset();
    let mut params = vec![fx(0), fx(ONE)];
    let empty: Vec<Fx> = Vec::new();
    assert_eq!(
        random_optimize_fn(&empty, &ys, &LinearModel {}, &mut params, &SumSquares {}, &mut FixedSeed(1)),
        Err(FitError::LengthMismatch)
    );
    assert_eq!(
        random_optimize_fn(&empty, &empty, &LinearModel {}, &mut params, &SumSquares {}, &mut FixedSeed(1)),
        Err(FitError::EmptyInput)
    );
    let mut one_param = vec![fx(0)];
    assert_eq!(
        random_optimize_fn(&xs, &ys, &LinearModel {}, &mut one_param, &SumSquares {}, &mut FixedSeed(1)),
        Err(FitError::TooFewParams)
    );
    assert_eq!(params, vec![fx(0), fx(ONE)]);
}

#[test]
fn consider_candidate_keeps_only_strict_improvements() {
    let (xs, ys) = dataset();
    let mut best_params = vec![fx(0), fx(ONE)];
    let mut best_loss = Fx::max_value();
    let mut trace = Vec::new();
    // The exact fit (intercept 0, slope 2) has loss 0 and is accepted.
    let exact = vec![fx(0), fx(2 * ONE)];
    consider_candidate(
        &xs,
        &ys,
        &LinearModel {},
        &SumSquares {},
        exact.clone(),
        &mut best_params,
        &mut best_loss,
        &mut trace,
    );
    assert_eq!(best_params, exact);
    assert_eq!(best_loss.to_units(), 0);
    assert_eq!(trace.len(), 1);
    assert_eq!(trace[0].found.to_units(), 0);
    assert_eq!(trace[0].previous, Fx::max_value());
    // A worse candidate changes nothing.
    consider_candidate(
        &xs,
        &ys,
        &LinearModel {},
        &SumSquares {},
        vec![fx(0), fx(ONE)],
        &mut best_params,
        &mut best_loss,
        &mut trace,
    );
    assert_eq!(best_params, exact);
    assert_eq!(best_loss.to_units(), 0);
    assert_eq!(trace.len(), 1);
}

#[test]
fn sampler_respects_bound() {
    let mut sampler = ThreadRngSampler::new();
    for _ in 0..1000 {
        assert!(sampler.next_below(10) < 10);
    }
}
