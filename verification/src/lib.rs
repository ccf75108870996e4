//! A gated random-reward ("gacha") simulator: a pull engine with pity
//! counters and soft-pity ramps, a hidden "capturing radiance" state machine
//! that settles the 50/50 guarantee, and an aggregator that folds batches of
//! trials into queryable histograms.
//!
//! Probabilities are exact rationals over a fixed denominator (see
//! [`outcome::PROB_DENOM`]); a pull consumes one integer draw that is uniform
//! below that denominator, so every rate in the model is represented exactly.

pub mod gacha;
pub mod hist;
pub mod outcome;
pub mod radiance;
pub mod results;
pub mod rng;
pub mod runner;

pub use gacha::GenshinImpactGachaModel;
pub use outcome::PullResult;
pub use radiance::CapturingRadianceModel;
pub use results::SimulationResult;
pub use rng::RandomSource;
pub use runner::SimulationThread;
