use vstd::prelude::*;

verus! {

/// Common denominator of every probability in the model. A uniform draw is
/// an integer in `[0, PROB_DENOM)`, and an event with numerator `n` happens
/// exactly when the draw lands below `n`. The denominator is divisible by
/// 11 and by 1000, so each rate the model needs (0.006 and 0.051, their
/// tenfold ramp slopes, 1/10, 1/4, 1/2, 3/4 and 6/11) is an exact integer
/// numerator, with no rounding anywhere.
pub const PROB_DENOM: u64 = 11_000_000;

/// The outcome of a single pull. `Featured5Star` is the reward the trial is
/// hunting for; the three `Standard` variants are consolation tiers.
#[derive(Clone, Copy, Debug, PartialEq, Eq, Structural)]
pub enum PullResult {
    Standard3Star,
    Standard4Star,
    Standard5Star,
    Featured5Star,
}

} // verus!
