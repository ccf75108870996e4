use crate::outcome::PROB_DENOM;
use crate::outcome::PullResult;
use crate::rng::RandomSource;
use vstd::prelude::*;

verus! {

/// Numerator of 1/2 over [`PROB_DENOM`].
pub const CR_HALF: u64 = 5_500_000;
/// Numerator of 1/10 over [`PROB_DENOM`].
pub const CR_TENTH: u64 = 1_100_000;
/// Numerator of 1/4 over [`PROB_DENOM`].
pub const CR_QUARTER: u64 = 2_750_000;
/// Numerator of 3/4 over [`PROB_DENOM`].
pub const CR_THREE_QUARTERS: u64 = 8_250_000;
/// Numerator of exactly 6/11 over [`PROB_DENOM`]: the combined chance, under
/// the current best hypothesis, of triggering radiance and winning the 50/50
/// from the third hidden state.
pub const CR_SIX_ELEVENTHS: u64 = 6_000_000;

/// Where the hidden counter moves on one resolution. Versions 0 and 1 have
/// no hidden state, so they leave `cr` alone; versions 2 and 3 walk their
/// four-state tables: a loss always moves one state up, a win falls back
/// according to the version's table.
pub open spec fn cr_next(version: int, cr: int, win: bool) -> int {
    if version == 2 {
        if win {
            if cr <= 1 {
                0
            } else {
                1
            }
        } else {
            if cr < 3 {
                cr + 1
            } else {
                3
            }
        }
    } else if version == 3 {
        if win {
            if cr <= 1 {
                0
            } else {
                cr - 1
            }
        } else {
            if cr < 3 {
                cr + 1
            } else {
                3
            }
        }
    } else {
        cr
    }
}

/// Numerator of the chance to resolve `Featured5Star` from a given state,
/// for the versions that decide on a single draw (0, 2 and 3). Version 1
/// decides on up to two draws ([`CR_HALF`], then [`CR_TENTH`]); its entry
/// here is the first of the two.
pub open spec fn cr_win_num(version: int, cr: int) -> int {
    if version == 2 {
        if cr <= 1 {
            CR_HALF as int
        } else if cr == 2 {
            CR_SIX_ELEVENTHS as int
        } else {
            PROB_DENOM as int
        }
    } else if version == 3 {
        if cr == 0 {
            CR_QUARTER as int
        } else if cr == 1 {
            CR_HALF as int
        } else if cr == 2 {
            CR_THREE_QUARTERS as int
        } else {
            PROB_DENOM as int
        }
    } else {
        CR_HALF as int
    }
}

/// The hidden state never leaves {0, 1, 2, 3}, whatever the version, the
/// starting state and the run of wins and losses.
pub proof fn lemma_cr_stays_in_range(version: int, cr: int, win: bool)
    requires
        0 <= cr <= 3,
    ensures
        0 <= cr_next(version, cr, win) <= 3,
{
}

/// Versions 0 and 1 predate the hidden state machine: no resolution under
/// them ever moves the hidden counter, and their win chance is the same
/// whatever the counter holds — the state is neither written nor read.
pub proof fn lemma_low_versions_keep_cr(version: int, cr: int, win: bool)
    requires
        version <= 1,
    ensures
        cr_next(version, cr, win) == cr,
        cr_win_num(version, cr) == cr_win_num(version, 0),
{
}

/// The secondary ("capturing radiance") state machine. It settles whether a
/// five-star that was not already guaranteed comes out featured, under one
/// of four competing hypotheses selected by `version` at construction.
pub struct CapturingRadianceModel {
    /// Hidden state, always in {0, 1, 2, 3}; meaningful for versions 2 and 3.
    pub cr: i32,
    /// Which transition table this model runs; fixed after construction.
    pub version: i32,
}

impl CapturingRadianceModel {
    /// Both the hidden state and the version tag stay inside their four
    /// admissible values.
    pub open spec fn wf(&self) -> bool {
        &&& 0 <= self.cr <= 3
        &&& 0 <= self.version <= 3
    }

    pub fn new(cr: i32, version: i32) -> (r: Self)
        requires
            0 <= cr <= 3,
            0 <= version <= 3,
        ensures
            r.wf(),
            r.cr == cr,
            r.version == version,
    {
        Self { cr, version }
    }

    /// Resolves one un-guaranteed five-star: featured or standard, moving
    /// the hidden state by the version's table.
    pub fn pull(&mut self, rs: &mut RandomSource) -> (r: PullResult)
        requires
            old(self).wf(),
        ensures
            final(self).wf(),
            final(self).version == old(self).version,
            r == PullResult::Featured5Star || r == PullResult::Standard5Star,
            final(self).cr == cr_next(
                old(self).version as int,
                old(self).cr as int,
                r == PullResult::Featured5Star,
            ),
            old(self).version <= 1 ==> final(self).cr == old(self).cr,
            cr_win_num(old(self).version as int, old(self).cr as int) >= PROB_DENOM
                ==> r == PullResult::Featured5Star,
    {
        match self.version {
            3 => self.pull_v3(rs),
            2 => self.pull_v2(rs),
            1 => self.pull_v1(rs),
            _ => self.pull_v0(rs),
        }
    }

    /// Settles a plain 50/50 on one given draw: featured exactly when the
    /// draw lands below one half. This is the whole of version 0, and
    /// version 1's first stage. The state is untouched.
    pub fn resolve_v0_with(&mut self, draw: u64) -> (r: PullResult)
        ensures
            *final(self) == *old(self),
            r == PullResult::Featured5Star || r == PullResult::Standard5Star,
            r == PullResult::Featured5Star <==> draw < CR_HALF,
    {
        if draw < CR_HALF {
            PullResult::Featured5Star
        } else {
            PullResult::Standard5Star
        }
    }

    /// Version 1's rescue stage after a lost 50/50: featured exactly when
    /// the given draw lands below one tenth. The state is untouched.
    pub fn resolve_v1_rescue_with(&mut self, draw: u64) -> (r: PullResult)
        ensures
            *final(self) == *old(self),
            r == PullResult::Featured5Star || r == PullResult::Standard5Star,
            r == PullResult::Featured5Star <==> draw < CR_TENTH,
    {
        if draw < CR_TENTH {
            PullResult::Featured5Star
        } else {
            PullResult::Standard5Star
        }
    }

    /// Version 2's whole decision on one given draw: featured exactly when
    /// the draw lands below the current state's win numerator, the state
    /// moving by the version's table either way.
    pub fn resolve_v2_with(&mut self, draw: u64) -> (r: PullResult)
        requires
            old(self).wf(),
            draw < PROB_DENOM,
        ensures
            final(self).wf(),
            final(self).version == old(self).version,
            r == PullResult::Featured5Star || r == PullResult::Standard5Star,
            r == PullResult::Featured5Star <==> draw < cr_win_num(2, old(self).cr as int),
            final(self).cr == cr_next(2, old(self).cr as int, r == PullResult::Featured5Star),
    {
        match self.cr {
            0 => {
                if draw < CR_HALF {
                    self.cr = 0;
                    PullResult::Featured5Star
                } else {
                    self.cr = 1;
                    PullResult::Standard5Star
                }
            },
            1 => {
                if draw < CR_HALF {
                    self.cr = 0;
                    PullResult::Featured5Star
                } else {
                    self.cr = 2;
                    PullResult::Standard5Star
                }
            },
            2 => {
                if draw < CR_SIX_ELEVENTHS {
                    self.cr = 1;
                    PullResult::Featured5Star
                } else {
                    self.cr = 3;
                    PullResult::Standard5Star
                }
            },
            _ => {
                self.cr = 1;
                PullResult::Featured5Star
            },
        }
    }

    /// Version 3's whole decision on one given draw: featured exactly when
    /// the draw lands below the current state's win numerator, the state
    /// moving by the version's table either way.
    pub fn resolve_v3_with(&mut self, draw: u64) -> (r: PullResult)
        requires
            old(self).wf(),
            draw < PROB_DENOM,
        ensures
            final(self).wf(),
            final(self).version == old(self).version,
            r == PullResult::Featured5Star || r == PullResult::Standard5Star,
            r == PullResult::Featured5Star <==> draw < cr_win_num(3, old(self).cr as int),
            final(self).cr == cr_next(3, old(self).cr as int, r == PullResult::Featured5Star),
    {
        match self.cr {
            0 => {
                if draw < CR_QUARTER {
                    self.cr = 0;
                    PullResult::Featured5Star
                } else {
                    self.cr = 1;
                    PullResult::Standard5Star
                }
            },
            1 => {
                if draw < CR_HALF {
                    self.cr = 0;
                    PullResult::Featured5Star
                } else {
                    self.cr = 2;
                    PullResult::Standard5Star
                }
            },
            2 => {
                if draw < CR_THREE_QUARTERS {
                    self.cr = 1;
                    PullResult::Featured5Star
                } else {
                    self.cr = 3;
                    PullResult::Standard5Star
                }
            },
            _ => {
                self.cr = 2;
                PullResult::Featured5Star
            },
        }
    }

    /// Always a plain 50/50: the system before radiance existed. Running
    /// this version disables the hidden state machine entirely.
    pub fn pull_v0(&mut self, rs: &mut RandomSource) -> (r: PullResult)
        ensures
            *final(self) == *old(self),
            r == PullResult::Featured5Star || r == PullResult::Standard5Star,
    {
        let draw = rs.next_below(PROB_DENOM);
        self.resolve_v0_with(draw)
    }

    /// A 50/50, then an extra independent 1/10 chance to win anyway after a
    /// loss (the second draw happens only on a loss): what the mechanism
    /// was first believed to be. Stateless.
    pub fn pull_v1(&mut self, rs: &mut RandomSource) -> (r: PullResult)
        ensures
            *final(self) == *old(self),
            r == PullResult::Featured5Star || r == PullResult::Standard5Star,
    {
        let first_draw = rs.next_below(PROB_DENOM);
        let first = self.resolve_v0_with(first_draw);
        if first == PullResult::Featured5Star {
            first
        } else {
            let rescue_draw = rs.next_below(PROB_DENOM);
            self.resolve_v1_rescue_with(rescue_draw)
        }
    }

    /// The current best hypothesis: 1/2 from the first two states, exactly
    /// 6/11 from the third, certainty from the fourth; a loss moves one
    /// state up, a win falls back to state 0 or 1.
    pub fn pull_v2(&mut self, rs: &mut RandomSource) -> (r: PullResult)
        requires
            old(self).wf(),
        ensures
            final(self).wf(),
            final(self).version == old(self).version,
            r == PullResult::Featured5Star || r == PullResult::Standard5Star,
            final(self).cr == cr_next(2, old(self).cr as int, r == PullResult::Featured5Star),
            cr_win_num(2, old(self).cr as int) >= PROB_DENOM ==> r == PullResult::Featured5Star,
    {
        let draw = rs.next_below(PROB_DENOM);
        self.resolve_v2_with(draw)
    }

    /// The monotone-ramp hypothesis: 1/4, 1/2, 3/4, then certainty; a loss
    /// moves one state up, a win one state down (to 0 from the first two).
    pub fn pull_v3(&mut self, rs: &mut RandomSource) -> (r: PullResult)
        requires
            old(self).wf(),
        ensures
            final(self).wf(),
            final(self).version == old(self).version,
            r == PullResult::Featured5Star || r == PullResult::Standard5Star,
            final(self).cr == cr_next(3, old(self).cr as int, r == PullResult::Featured5Star),
            cr_win_num(3, old(self).cr as int) >= PROB_DENOM ==> r == PullResult::Featured5Star,
    {
        let draw = rs.next_below(PROB_DENOM);
        self.resolve_v3_with(draw)
    }
}

} // verus!
