use crate::outcome::PROB_DENOM;
use crate::outcome::PullResult;
use crate::radiance::cr_next;
use crate::radiance::cr_win_num;
use crate::radiance::CapturingRadianceModel;
use crate::rng::RandomSource;
use vstd::prelude::*;

verus! {

/// Numerator of the base five-star rate, 0.006.
pub const RATE5_NUM: u64 = 66_000;
/// Numerator of the base four-star rate, 0.051.
pub const RATE4_NUM: u64 = 561_000;
/// Numerator of the five-star soft-pity ramp slope, ten times the base rate.
pub const RATEUP5_NUM: u64 = 660_000;
/// Numerator of the four-star soft-pity ramp slope, ten times the base rate.
pub const RATEUP4_NUM: u64 = 5_610_000;
/// Pity count past which the five-star ramp starts.
pub const SOFTPT5: u64 = 73;
/// Pity count past which the four-star ramp starts.
pub const SOFTPT4: u64 = 8;

/// Numerator of the five-star chance at a given pity count: the base rate at
/// or below the soft-pity point, then a linear ramp. Deliberately not capped
/// at [`PROB_DENOM`]: far enough past the ramp the numerator exceeds the
/// denominator and the tier below simply becomes unreachable.
pub open spec fn five_star_num(counter5: u64) -> int {
    if counter5 <= SOFTPT5 {
        RATE5_NUM as int
    } else {
        RATE5_NUM + RATEUP5_NUM * (counter5 - SOFTPT5)
    }
}

/// Numerator of the four-star chance at a given pity count, symmetric to
/// [`five_star_num`].
pub open spec fn four_star_num(counter4: u64) -> int {
    if counter4 <= SOFTPT4 {
        RATE4_NUM as int
    } else {
        RATE4_NUM + RATEUP4_NUM * (counter4 - SOFTPT4)
    }
}

/// Soft pity law: at or below a pity count of 73 the five-star chance is the
/// base rate 0.006 exactly (numerator 66 000, no ramp contribution); at 74
/// it is exactly 0.006 + 0.06, numerator 726 000.
pub proof fn lemma_soft_pity(counter5: u64)
    ensures
        counter5 <= 73 ==> five_star_num(counter5) == 66_000,
        counter5 == 74 ==> five_star_num(counter5) == 726_000,
{
}

/// The pull engine: pity counters, soft-pity ramps, the guarantee flag, one
/// owned radiance model and one owned seeded draw source.
pub struct GenshinImpactGachaModel {
    /// Whether the next five-star is forced to be featured (a 50/50 was lost).
    pub g: bool,
    /// The owned secondary state machine consulted on un-guaranteed five-stars.
    pub cr_model: CapturingRadianceModel,
    /// The seed the owned draw source was constructed with.
    pub seed: u64,
    /// Numerator of the base five-star rate; always [`RATE5_NUM`].
    pub rate5: u64,
    /// Numerator of the base four-star rate; always [`RATE4_NUM`].
    pub rate4: u64,
    /// Numerator of the five-star ramp slope; always [`RATEUP5_NUM`].
    pub rateup5: u64,
    /// Numerator of the four-star ramp slope; always [`RATEUP4_NUM`].
    pub rateup4: u64,
    /// Five-star soft-pity point; always [`SOFTPT5`].
    pub softpt5: u64,
    /// Four-star soft-pity point; always [`SOFTPT4`].
    pub softpt4: u64,
    /// Pulls since the last five-star (the pity count driving the ramp).
    pub counter5: u64,
    /// Pulls since the last four-star.
    pub counter4: u64,
    /// The owned draw source, seeded with `seed` at construction.
    pub rng: RandomSource,
}

impl GenshinImpactGachaModel {
    /// The radiance model is well formed and every rate field holds the
    /// constant it mirrors.
    pub open spec fn wf(&self) -> bool {
        &&& self.cr_model.wf()
        &&& self.rate5 == RATE5_NUM
        &&& self.rate4 == RATE4_NUM
        &&& self.rateup5 == RATEUP5_NUM
        &&& self.rateup4 == RATEUP4_NUM
        &&& self.softpt5 == SOFTPT5
        &&& self.softpt4 == SOFTPT4
    }

    /// Builds a model at pity point `pt`, with the given guarantee flag and
    /// radiance model, drawing from a source seeded with `seed`.
    pub fn new(pt: u64, g: bool, cr_model: CapturingRadianceModel, seed: u64) -> (r: Self)
        requires
            cr_model.wf(),
        ensures
            r.wf(),
            r.g == g,
            r.cr_model == cr_model,
            r.seed == seed,
            r.counter5 == pt,
            r.counter4 == 0,
    {
        Self {
            g,
            cr_model,
            seed,
            rate5: RATE5_NUM,
            rate4: RATE4_NUM,
            rateup5: RATEUP5_NUM,
            rateup4: RATEUP4_NUM,
            softpt5: SOFTPT5,
            softpt4: SOFTPT4,
            counter5: pt,
            counter4: 0,
            rng: RandomSource::with_seed(seed),
        }
    }

    /// The exact five-star numerator at a pity count, as the engine uses it.
    pub fn five_star_chance(counter5: u64) -> (r: u128)
        ensures
            r == five_star_num(counter5),
    {
        if counter5 <= SOFTPT5 {
            RATE5_NUM as u128
        } else {
            let steps: u128 = (counter5 - SOFTPT5) as u128;
            proof {
                assert((RATEUP5_NUM as u128) * steps <= 660_000 * 0xffff_ffff_ffff_ffffu128)
                    by (nonlinear_arith)
                    requires
                        steps <= 0xffff_ffff_ffff_ffffu128,
                ;
            }
            RATE5_NUM as u128 + (RATEUP5_NUM as u128) * steps
        }
    }

    /// The exact four-star numerator at a pity count, as the engine uses it.
    pub fn four_star_chance(counter4: u64) -> (r: u128)
        ensures
            r == four_star_num(counter4),
    {
        if counter4 <= SOFTPT4 {
            RATE4_NUM as u128
        } else {
            let steps: u128 = (counter4 - SOFTPT4) as u128;
            proof {
                assert((RATEUP4_NUM as u128) * steps <= 5_610_000 * 0xffff_ffff_ffff_ffffu128)
                    by (nonlinear_arith)
                    requires
                        steps <= 0xffff_ffff_ffff_ffffu128,
                ;
            }
            RATE4_NUM as u128 + (RATEUP4_NUM as u128) * steps
        }
    }

    /// One pull, decided by the given tier draw: the five-star tier
    /// resolves exactly when the draw lands below the five-star numerator,
    /// else the four-star tier exactly when it lands below the sum of the
    /// two numerators, else a three-star. Which five-star comes out —
    /// featured or standard — is then settled by the guarantee flag, or by
    /// the radiance model on its own draw.
    pub fn pull_with(&mut self, x: u64) -> (r: PullResult)
        requires
            old(self).wf(),
            x < PROB_DENOM,
            old(self).counter5 < u64::MAX,
            old(self).counter4 < u64::MAX,
        ensures
            (r == PullResult::Featured5Star || r == PullResult::Standard5Star) <==> x
                < five_star_num(old(self).counter5),
            r == PullResult::Standard4Star <==> (five_star_num(old(self).counter5) <= x && x
                < five_star_num(old(self).counter5) + four_star_num(old(self).counter4)),
            final(self).wf(),
            final(self).seed == old(self).seed,
            final(self).cr_model.version == old(self).cr_model.version,
            (r == PullResult::Featured5Star || r == PullResult::Standard5Star) ==> {
                &&& final(self).counter5 == 1
                &&& final(self).counter4 == old(self).counter4 + 1
            },
            r == PullResult::Standard4Star ==> {
                &&& final(self).counter4 == 1
                &&& final(self).counter5 == old(self).counter5 + 1
            },
            r == PullResult::Standard3Star ==> {
                &&& final(self).counter5 == old(self).counter5 + 1
                &&& final(self).counter4 == old(self).counter4 + 1
            },
            (r == PullResult::Standard4Star || r == PullResult::Standard3Star) ==> {
                &&& final(self).g == old(self).g
                &&& final(self).cr_model == old(self).cr_model
            },
            old(self).g && (r == PullResult::Featured5Star || r == PullResult::Standard5Star)
                ==> {
                &&& r == PullResult::Featured5Star
                &&& !final(self).g
                &&& final(self).cr_model == old(self).cr_model
            },
            !old(self).g && (r == PullResult::Featured5Star || r == PullResult::Standard5Star)
                ==> {
                &&& final(self).cr_model.cr == cr_next(
                    old(self).cr_model.version as int,
                    old(self).cr_model.cr as int,
                    r == PullResult::Featured5Star,
                )
                &&& final(self).g == (r == PullResult::Standard5Star)
            },
            !old(self).g && (r == PullResult::Featured5Star || r == PullResult::Standard5Star)
                && cr_win_num(
                old(self).cr_model.version as int,
                old(self).cr_model.cr as int,
            ) >= PROB_DENOM ==> r == PullResult::Featured5Star,
            // Past the ramp a numerator can exceed the denominator: the
            // tier below is then unreachable, with no clamping anywhere.
            five_star_num(old(self).counter5) >= PROB_DENOM ==> (r == PullResult::Featured5Star
                || r == PullResult::Standard5Star),
            five_star_num(old(self).counter5) + four_star_num(old(self).counter4) >= PROB_DENOM
                ==> r != PullResult::Standard3Star,
    {
        let thr5 = Self::five_star_chance(self.counter5);
        let thr4 = Self::four_star_chance(self.counter4);

        if (x as u128) < thr5 {
            self.counter5 = 1;
            self.counter4 = self.counter4 + 1;
            if self.g {
                self.g = false;
                PullResult::Featured5Star
            } else {
                let pull = self.cr_model.pull(&mut self.rng);
                self.g = pull == PullResult::Standard5Star;
                pull
            }
        } else if (x as u128) < thr5 + thr4 {
            self.counter5 = self.counter5 + 1;
            self.counter4 = 1;
            PullResult::Standard4Star
        } else {
            self.counter5 = self.counter5 + 1;
            self.counter4 = self.counter4 + 1;
            PullResult::Standard3Star
        }
    }

    /// One pull. Exactly one tier resolves: a five-star resets the five-star
    /// pity and bumps the four-star one, a four-star does the opposite, a
    /// three-star bumps both. On an un-guaranteed five-star the radiance
    /// model settles featured against standard and losing the 50/50 sets the
    /// guarantee; a guaranteed five-star is featured, clearing the flag.
    /// The tier draw is taken here; [`Self::pull_with`] holds the decision.
    pub fn pull(&mut self) -> (r: PullResult)
        requires
            old(self).wf(),
            old(self).counter5 < u64::MAX,
            old(self).counter4 < u64::MAX,
        ensures
            final(self).wf(),
            final(self).seed == old(self).seed,
            final(self).cr_model.version == old(self).cr_model.version,
            (r == PullResult::Featured5Star || r == PullResult::Standard5Star) ==> {
                &&& final(self).counter5 == 1
                &&& final(self).counter4 == old(self).counter4 + 1
            },
            r == PullResult::Standard4Star ==> {
                &&& final(self).counter4 == 1
                &&& final(self).counter5 == old(self).counter5 + 1
            },
            r == PullResult::Standard3Star ==> {
                &&& final(self).counter5 == old(self).counter5 + 1
                &&& final(self).counter4 == old(self).counter4 + 1
            },
            (r == PullResult::Standard4Star || r == PullResult::Standard3Star) ==> {
                &&& final(self).g == old(self).g
                &&& final(self).cr_model == old(self).cr_model
            },
            old(self).g && (r == PullResult::Featured5Star || r == PullResult::Standard5Star)
                ==> {
                &&& r == PullResult::Featured5Star
                &&& !final(self).g
                &&& final(self).cr_model == old(self).cr_model
            },
            !old(self).g && (r == PullResult::Featured5Star || r == PullResult::Standard5Star)
                ==> {
                &&& final(self).cr_model.cr == cr_next(
                    old(self).cr_model.version as int,
                    old(self).cr_model.cr as int,
                    r == PullResult::Featured5Star,
                )
                &&& final(self).g == (r == PullResult::Standard5Star)
            },
            !old(self).g && (r == PullResult::Featured5Star || r == PullResult::Standard5Star)
                && cr_win_num(
                old(self).cr_model.version as int,
                old(self).cr_model.cr as int,
            ) >= PROB_DENOM ==> r == PullResult::Featured5Star,
            // Past the ramp a numerator can exceed the denominator: the
            // tier below is then unreachable, with no clamping anywhere.
            five_star_num(old(self).counter5) >= PROB_DENOM ==> (r == PullResult::Featured5Star
                || r == PullResult::Standard5Star),
            five_star_num(old(self).counter5) + four_star_num(old(self).counter4) >= PROB_DENOM
                ==> r != PullResult::Standard3Star,
    {
        let x = self.rng.next_below(PROB_DENOM);
        self.pull_with(x)
    }

    /// Runs `pulls` pulls, tallying how many came out featured and how many
    /// standard five-star; lower tiers advance the state but are not
    /// counted. A count of zero is a no-op that returns `(0, 0)`; negative
    /// counts cannot be expressed.
    pub fn batch_pull_count(&mut self, pulls: u64) -> (r: (u64, u64))
        requires
            old(self).wf(),
            old(self).counter5 + pulls <= u64::MAX,
            old(self).counter4 + pulls <= u64::MAX,
        ensures
            final(self).wf(),
            final(self).seed == old(self).seed,
            final(self).cr_model.version == old(self).cr_model.version,
            r.0 + r.1 <= pulls,
            final(self).counter5 <= old(self).counter5 + pulls,
            final(self).counter4 <= old(self).counter4 + pulls,
            pulls == 0 ==> *final(self) == *old(self) && r == (0u64, 0u64),
            // A real batch is never a no-op: every pull leaves both pity
            // counters at one or above.
            pulls >= 1 ==> final(self).counter5 >= 1 && final(self).counter4 >= 1,
            // Past the ramp the first pull is certainly a five-star, so the
            // tally cannot be empty.
            pulls >= 1 && five_star_num(old(self).counter5) >= PROB_DENOM ==> r.0 + r.1 >= 1,
    {
        let mut featured: u64 = 0;
        let mut standard: u64 = 0;
        let mut i: u64 = 0;

        while i < pulls
            invariant
                self.wf(),
                i <= pulls,
                featured + standard <= i,
                self.counter5 <= old(self).counter5 + i,
                self.counter4 <= old(self).counter4 + i,
                old(self).counter5 + pulls <= u64::MAX,
                old(self).counter4 + pulls <= u64::MAX,
                self.seed == old(self).seed,
                self.cr_model.version == old(self).cr_model.version,
                i == 0 ==> *self == *old(self) && featured == 0 && standard == 0,
                i >= 1 ==> self.counter5 >= 1 && self.counter4 >= 1,
                i >= 1 && five_star_num(old(self).counter5) >= PROB_DENOM ==> featured + standard
                    >= 1,
            decreases pulls - i,
        {
            let r = self.pull();
            match r {
                PullResult::Featured5Star => {
                    featured = featured + 1;
                },
                PullResult::Standard5Star => {
                    standard = standard + 1;
                },
                _ => {},
            }
            i = i + 1;
        }

        (featured, standard)
    }
}

} // verus!
