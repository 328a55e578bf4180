//! The thread-local random source, behind the `Sampler` trait.

use vstd::prelude::*;

use rand::Rng;

use crate::optimize::Sampler;

verus! {

/// rand's thread-local generator, opaque to the verifier.
#[verifier::external_type_specification]
#[verifier::external_body]
pub struct ExThreadRng(rand::rngs::ThreadRng);

/// The process-wide, unseeded random source: rand's thread-local generator
/// behind the `Sampler` trait.
pub struct ThreadRngSampler {
    rng: rand::rngs::ThreadRng,
}

impl ThreadRngSampler {
    /// Relies on rand::thread_rng: a handle to the thread-local generator.
    #[verifier::external_body]
    pub fn new() -> (r: ThreadRngSampler) {
        ThreadRngSampler { rng: rand::thread_rng() }
    }
}

/// Relies on rand::Rng::gen_range: a sample within the given range, here
/// `0..bound`, which is nonempty since `bound > 0`.
#[verifier::external_body]
fn gen_below(rng: &mut rand::rngs::ThreadRng, bound: u64) -> (r: u64)
    requires
        bound > 0,
    ensures
        r < bound,
{
    rng.gen_range(0..bound)
}

impl Sampler for ThreadRngSampler {
    fn next_below(&mut self, bound: u64) -> (r: u64) {
        gen_below(&mut self.rng, bound)
    }
}

} // verus!
