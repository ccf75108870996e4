use vstd::prelude::*;

verus! {

/// Declares fastrand's generator so that it can stand in a field; its
/// internal state stays opaque to the verifier.
#[verifier::external_type_specification]
#[verifier::external_body]
pub struct ExRng(fastrand::Rng);

/// A seedable source of uniform draws. The simulator owns one per model, so
/// a run is a function of the seed it was constructed with and nothing else.
pub struct RandomSource {
    rng: fastrand::Rng,
}

impl RandomSource {
    /// A source seeded with `seed`; two sources built from equal seeds hand
    /// out equal draw sequences.
    pub fn new(seed: u64) -> (r: RandomSource) {
        RandomSource::with_seed(seed)
    }

    /// Relies on `fastrand::Rng::with_seed`: a fresh generator whose state is
    /// the given seed, so equal seeds give equal draw sequences.
    #[verifier::external_body]
    pub(crate) fn with_seed(seed: u64) -> (r: RandomSource) {
        RandomSource { rng: fastrand::Rng::with_seed(seed) }
    }

    /// Relies on `fastrand::Rng::u64` over `0..bound`: a value uniform in
    /// that range, hence below `bound`; the range is nonempty, so the call
    /// cannot panic.
    #[verifier::external_body]
    pub(crate) fn next_below(&mut self, bound: u64) -> (r: u64)
        requires
            bound >= 1,
        ensures
            r < bound,
    {
        self.rng.u64(0..bound)
    }
}

} // verus!
