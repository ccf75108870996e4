use crate::hist::dense;
use crate::hist::hist_sum;
use crate::hist::interval;
use crate::hist::joint_clone;
use crate::hist::joint_empty;
use crate::hist::joint_get;
use crate::hist::joint_hist;
use crate::hist::joint_insert;
use crate::hist::joint_keys;
use crate::hist::joint_new;
use crate::hist::lemma_dense_idempotent;
use crate::hist::lemma_dense_keeps_sum;
use crate::hist::lemma_elem_le_sum;
use crate::hist::lemma_hist_sum_insert;
use crate::hist::lemma_interval_finite;
use crate::hist::scalar_empty;
use crate::hist::scalar_get;
use crate::hist::scalar_hist;
use crate::hist::scalar_insert;
use crate::hist::scalar_keys;
use crate::hist::scalar_new;
use crate::hist::val_or_zero;
use std::collections::hash_map::RandomState;
use vstd::prelude::*;

verus! {

/// `k` is the least key of `d`.
pub open spec fn is_lo(d: Set<u64>, k: u64) -> bool {
    d.contains(k) && forall|j: u64| d.contains(j) ==> k <= j
}

/// `k` is the greatest key of `d`.
pub open spec fn is_hi(d: Set<u64>, k: u64) -> bool {
    d.contains(k) && forall|j: u64| d.contains(j) ==> j <= k
}

/// The range a snapshot records for a key set: its least and greatest key,
/// or `(0, 0)` when no key was ever observed.
pub open spec fn bounds(d: Set<u64>, lo: u64, hi: u64) -> bool {
    if d == Set::<u64>::empty() {
        lo == 0 && hi == 0
    } else {
        is_lo(d, lo) && is_hi(d, hi)
    }
}

/// Accumulates per-trial `(featured, standard)` tallies into four sparse
/// histograms plus a trial count. Reading happens through [`Self::fill_range`],
/// which produces a dense, gap-filled snapshot.
pub struct SimulationResult {
    /// Trials per featured-count, sparse.
    pub featured_rolls: indexmap::IndexMap<u64, u64, RandomState>,
    /// Trials per standard-count, sparse.
    pub standard_rolls: indexmap::IndexMap<u64, u64, RandomState>,
    /// Trials per total five-star count, sparse.
    pub total_rolls: indexmap::IndexMap<u64, u64, RandomState>,
    /// Trials per `(featured, standard)` pair; stays sparse in snapshots.
    pub joint_rolls: indexmap::IndexMap<(u64, u64), u64, RandomState>,
    /// How many trials have been folded in.
    pub simulation_count: u64,
    /// Key range of the featured histogram; `(0, 0)` until a snapshot sets it.
    pub ftd_range: (u64, u64),
    /// Key range of the standard histogram; `(0, 0)` until a snapshot sets it.
    pub std_range: (u64, u64),
    /// Wall-clock length of the run that produced this, in nanoseconds.
    pub sim_duration: u64,
}

/// `b` is the dense snapshot of `a`: each scalar histogram gap-filled over
/// the range of its observed keys (over `[0, 0]` when it was empty), the
/// joint histogram, trial count and duration copied through, and the
/// featured and standard ranges recorded.
pub open spec fn fills(a: SimulationResult, b: SimulationResult) -> bool {
    &&& bounds(a.featured().dom(), b.ftd_range.0, b.ftd_range.1)
    &&& b.featured() == dense(a.featured(), b.ftd_range.0, b.ftd_range.1)
    &&& bounds(a.standard().dom(), b.std_range.0, b.std_range.1)
    &&& b.standard() == dense(a.standard(), b.std_range.0, b.std_range.1)
    &&& (exists|tlo: u64, thi: u64|
        bounds(a.total().dom(), tlo, thi) && b.total() == dense(a.total(), tlo, thi))
    &&& b.joint() == a.joint()
    &&& b.simulation_count == a.simulation_count
    &&& b.sim_duration == a.sim_duration
}

/// One completed trial that counted `f` featured and `s` standard
/// five-stars moves `pre` to `post`: the trial count and the trial's bucket
/// in each histogram grow by one, and nothing else moves.
pub open spec fn trial_recorded(
    pre: SimulationResult,
    post: SimulationResult,
    f: u64,
    s: u64,
) -> bool {
    &&& post.simulation_count == pre.simulation_count + 1
    &&& post.featured() == pre.featured().insert(f, (val_or_zero(pre.featured(), f) + 1) as u64)
    &&& post.standard() == pre.standard().insert(s, (val_or_zero(pre.standard(), s) + 1) as u64)
    &&& post.total() == pre.total().insert(
        (f + s) as u64,
        (val_or_zero(pre.total(), (f + s) as u64) + 1) as u64,
    )
    &&& post.joint() == pre.joint().insert((f, s), (val_or_zero(pre.joint(), (f, s)) + 1) as u64)
    &&& post.ftd_range == pre.ftd_range
    &&& post.std_range == pre.std_range
    &&& post.sim_duration == pre.sim_duration
}

impl SimulationResult {
    /// The featured histogram's contents.
    pub open spec fn featured(&self) -> Map<u64, u64> {
        scalar_hist(self.featured_rolls)
    }

    /// The standard histogram's contents.
    pub open spec fn standard(&self) -> Map<u64, u64> {
        scalar_hist(self.standard_rolls)
    }

    /// The total histogram's contents.
    pub open spec fn total(&self) -> Map<u64, u64> {
        scalar_hist(self.total_rolls)
    }

    /// The joint histogram's contents.
    pub open spec fn joint(&self) -> Map<(u64, u64), u64> {
        joint_hist(self.joint_rolls)
    }

    /// Every histogram's counts sum to the trial count: each completed
    /// trial lands in exactly one bucket of each histogram.
    pub open spec fn wf(&self) -> bool {
        &&& self.featured().dom().finite()
        &&& self.standard().dom().finite()
        &&& self.total().dom().finite()
        &&& self.joint().dom().finite()
        &&& hist_sum(self.featured()) == self.simulation_count
        &&& hist_sum(self.standard()) == self.simulation_count
        &&& hist_sum(self.total()) == self.simulation_count
        &&& hist_sum(self.joint()) == self.simulation_count
    }

    /// An empty aggregator: no trials, empty histograms, zero ranges.
    pub fn new() -> (r: SimulationResult)
        ensures
            r.wf(),
            r.simulation_count == 0,
            r.featured() == scalar_empty(),
            r.standard() == scalar_empty(),
            r.total() == scalar_empty(),
            r.joint() == joint_empty(),
            r.ftd_range == (0u64, 0u64),
            r.std_range == (0u64, 0u64),
            r.sim_duration == 0,
    {
        let r = SimulationResult {
            featured_rolls: scalar_new(),
            standard_rolls: scalar_new(),
            total_rolls: scalar_new(),
            joint_rolls: joint_new(),
            simulation_count: 0,
            ftd_range: (0, 0),
            std_range: (0, 0),
            sim_duration: 0,
        };
        proof {
            assert(scalar_empty().dom() =~= Set::empty());
            assert(joint_empty().dom() =~= Set::empty());
        }
        r
    }

    /// Folds one completed trial in: bumps the trial count and the bucket
    /// the trial falls into in each of the four histograms.
    pub fn update(&mut self, featured: u64, standard: u64)
        requires
            old(self).wf(),
            old(self).simulation_count < u64::MAX,
            featured + standard <= u64::MAX,
        ensures
            final(self).wf(),
            trial_recorded(*old(self), *final(self), featured, standard),
    {
        let total = featured + standard;

        let c1 = match scalar_get(&self.featured_rolls, featured) {
            Some(v) => v,
            None => 0,
        };
        proof {
            if old(self).featured().dom().contains(featured) {
                lemma_elem_le_sum(old(self).featured(), featured);
            }
            lemma_hist_sum_insert(old(self).featured(), featured, (c1 + 1) as u64);
        }
        scalar_insert(&mut self.featured_rolls, featured, c1 + 1);

        let c2 = match scalar_get(&self.standard_rolls, standard) {
            Some(v) => v,
            None => 0,
        };
        proof {
            if old(self).standard().dom().contains(standard) {
                lemma_elem_le_sum(old(self).standard(), standard);
            }
            lemma_hist_sum_insert(old(self).standard(), standard, (c2 + 1) as u64);
        }
        scalar_insert(&mut self.standard_rolls, standard, c2 + 1);

        let c3 = match scalar_get(&self.total_rolls, total) {
            Some(v) => v,
            None => 0,
        };
        proof {
            if old(self).total().dom().contains(total) {
                lemma_elem_le_sum(old(self).total(), total);
            }
            lemma_hist_sum_insert(old(self).total(), total, (c3 + 1) as u64);
        }
        scalar_insert(&mut self.total_rolls, total, c3 + 1);

        let c4 = match joint_get(&self.joint_rolls, (featured, standard)) {
            Some(v) => v,
            None => 0,
        };
        proof {
            if old(self).joint().dom().contains((featured, standard)) {
                lemma_elem_le_sum(old(self).joint(), (featured, standard));
            }
            lemma_hist_sum_insert(old(self).joint(), (featured, standard), (c4 + 1) as u64);
        }
        joint_insert(&mut self.joint_rolls, (featured, standard), c4 + 1);

        self.simulation_count = self.simulation_count + 1;
    }

    /// Produces the dense snapshot: each scalar histogram is rebuilt with
    /// every key between its least and greatest observed key present
    /// (zero-filled gaps; the single key 0 when nothing was observed), the
    /// joint histogram is copied as it is, and the featured and standard
    /// ranges are recorded. A pure function of the sparse state, so taking
    /// a snapshot twice without updates in between yields the same thing.
    pub fn fill_range(&self) -> (r: SimulationResult)
        ensures
            fills(*self, r),
            self.wf() ==> r.wf(),
    {
        let fkeys = scalar_keys(&self.featured_rolls);
        let (flo, fhi) = key_span(&fkeys);
        let skeys = scalar_keys(&self.standard_rolls);
        let (slo, shi) = key_span(&skeys);
        let tkeys = scalar_keys(&self.total_rolls);
        let (tlo, thi) = key_span(&tkeys);

        proof {
            if fkeys@.len() == 0 {
                assert(self.featured().dom() =~= Set::empty());
            }
            if skeys@.len() == 0 {
                assert(self.standard().dom() =~= Set::empty());
            }
            if tkeys@.len() == 0 {
                assert(self.total().dom() =~= Set::empty());
            }
        }

        let r = SimulationResult {
            featured_rolls: build_dense(&self.featured_rolls, flo, fhi),
            standard_rolls: build_dense(&self.standard_rolls, slo, shi),
            total_rolls: build_dense(&self.total_rolls, tlo, thi),
            joint_rolls: joint_clone(&self.joint_rolls),
            simulation_count: self.simulation_count,
            ftd_range: (flo, fhi),
            std_range: (slo, shi),
            sim_duration: self.sim_duration,
        };

        proof {
            assert(bounds(self.total().dom(), tlo, thi) && r.total() == dense(
                self.total(),
                tlo,
                thi,
            ));
            if self.wf() {
                lemma_interval_finite(flo, fhi);
                lemma_interval_finite(slo, shi);
                lemma_interval_finite(tlo, thi);
                assert(r.featured().dom() =~= interval(flo, fhi));
                assert(r.standard().dom() =~= interval(slo, shi));
                assert(r.total().dom() =~= interval(tlo, thi));
                lemma_dense_keeps_sum(self.featured(), flo, fhi);
                lemma_dense_keeps_sum(self.standard(), slo, shi);
                lemma_dense_keeps_sum(self.total(), tlo, thi);
            }
        }
        r
    }

    /// The count under a featured key, zero where the key is absent.
    pub fn featured_count(&self, k: u64) -> (r: u64)
        ensures
            r == val_or_zero(self.featured(), k),
    {
        match scalar_get(&self.featured_rolls, k) {
            Some(v) => v,
            None => 0,
        }
    }

    /// The count under a standard key, zero where the key is absent.
    pub fn standard_count(&self, k: u64) -> (r: u64)
        ensures
            r == val_or_zero(self.standard(), k),
    {
        match scalar_get(&self.standard_rolls, k) {
            Some(v) => v,
            None => 0,
        }
    }

    /// The count under a total key, zero where the key is absent.
    pub fn total_count(&self, k: u64) -> (r: u64)
        ensures
            r == val_or_zero(self.total(), k),
    {
        match scalar_get(&self.total_rolls, k) {
            Some(v) => v,
            None => 0,
        }
    }

    /// The count under a `(featured, standard)` pair, zero where absent.
    pub fn joint_count(&self, f: u64, s: u64) -> (r: u64)
        ensures
            r == val_or_zero(self.joint(), (f, s)),
    {
        match joint_get(&self.joint_rolls, (f, s)) {
            Some(v) => v,
            None => 0,
        }
    }

    /// Every key of the featured histogram, each exactly once.
    pub fn featured_key_list(&self) -> (r: Vec<u64>)
        ensures
            r@.to_set() == self.featured().dom(),
            r@.no_duplicates(),
    {
        scalar_keys(&self.featured_rolls)
    }

    /// Every key of the standard histogram, each exactly once.
    pub fn standard_key_list(&self) -> (r: Vec<u64>)
        ensures
            r@.to_set() == self.standard().dom(),
            r@.no_duplicates(),
    {
        scalar_keys(&self.standard_rolls)
    }

    /// Every key of the total histogram, each exactly once.
    pub fn total_key_list(&self) -> (r: Vec<u64>)
        ensures
            r@.to_set() == self.total().dom(),
            r@.no_duplicates(),
    {
        scalar_keys(&self.total_rolls)
    }

    /// Every key pair of the joint histogram, each exactly once.
    pub fn joint_key_list(&self) -> (r: Vec<(u64, u64)>)
        ensures
            r@.to_set() == self.joint().dom(),
            r@.no_duplicates(),
    {
        joint_keys(&self.joint_rolls)
    }
}

/// The least and greatest entry of a key list, `(0, 0)` when it is empty.
fn key_span(keys: &Vec<u64>) -> (r: (u64, u64))
    ensures
        bounds(keys@.to_set(), r.0, r.1),
        r.0 <= r.1,
{
    if keys.len() == 0 {
        proof {
            assert(keys@.to_set() =~= Set::empty());
        }
        (0, 0)
    } else {
        let mut lo = keys[0];
        let mut hi = keys[0];
        let mut i: usize = 1;
        proof {
            assert(keys@.to_set().contains(keys@[0]));
        }
        while i < keys.len()
            invariant
                1 <= i <= keys@.len(),
                keys@.to_set().contains(lo),
                keys@.to_set().contains(hi),
                lo <= hi,
                forall|j: int| 0 <= j < i ==> lo <= #[trigger] keys@[j] <= hi,
            decreases keys@.len() - i,
        {
            proof {
                assert(keys@.to_set().contains(keys@[i as int]));
            }
            if keys[i] < lo {
                lo = keys[i];
            }
            if keys[i] > hi {
                hi = keys[i];
            }
            i = i + 1;
        }
        proof {
            assert(keys@.to_set() != Set::<u64>::empty()) by {
                assert(keys@.to_set().contains(keys@[0]));
            }
            assert forall|j: u64| keys@.to_set().contains(j) implies lo <= j <= hi by {
                let idx = choose|idx: int| 0 <= idx < keys@.len() && keys@[idx] == j;
            }
        }
        (lo, hi)
    }
}

/// Rebuilds a histogram densely over `[lo, hi]`: each key in the range is
/// inserted with its sparse count, absent keys with zero.
fn build_dense(src: &indexmap::IndexMap<u64, u64, RandomState>, lo: u64, hi: u64) -> (r:
    indexmap::IndexMap<u64, u64, RandomState>)
    requires
        lo <= hi,
    ensures
        scalar_hist(r) == dense(scalar_hist(*src), lo, hi),
{
    let ghost m = scalar_hist(*src);
    let mut out = scalar_new();
    let mut k = lo;

    while k < hi
        invariant
            lo <= k <= hi,
            k == lo ==> scalar_hist(out) == scalar_empty(),
            k > lo ==> scalar_hist(out) == dense(m, lo, (k - 1) as u64),
            m == scalar_hist(*src),
        decreases hi - k,
    {
        let v = match scalar_get(src, k) {
            Some(v) => v,
            None => 0,
        };
        scalar_insert(&mut out, k, v);
        proof {
            assert(scalar_hist(out) =~= dense(m, lo, k));
        }
        k = k + 1;
    }

    let v = match scalar_get(src, hi) {
        Some(v) => v,
        None => 0,
    };
    scalar_insert(&mut out, hi, v);
    proof {
        assert(scalar_hist(out) =~= dense(m, lo, hi));
    }
    out
}

/// Snapshot idempotence: a snapshot of a snapshot is that snapshot, field
/// for field — densifying dense histograms over their own recorded ranges
/// reproduces them, and everything else is copied through.
pub proof fn lemma_snapshot_idempotent(
    a: SimulationResult,
    b: SimulationResult,
    c: SimulationResult,
)
    requires
        fills(a, b),
        fills(b, c),
    ensures
        c.featured() == b.featured(),
        c.standard() == b.standard(),
        c.total() == b.total(),
        c.joint() == b.joint(),
        c.simulation_count == b.simulation_count,
        c.ftd_range == b.ftd_range,
        c.std_range == b.std_range,
        c.sim_duration == b.sim_duration,
{
    lemma_refill_same(a.featured(), b.ftd_range.0, b.ftd_range.1, c.ftd_range.0, c.ftd_range.1);
    lemma_refill_same(a.standard(), b.std_range.0, b.std_range.1, c.std_range.0, c.std_range.1);
    let (tlo, thi) = choose|tlo: u64, thi: u64|
        bounds(a.total().dom(), tlo, thi) && b.total() == dense(a.total(), tlo, thi);
    let (tlo2, thi2) = choose|tlo2: u64, thi2: u64|
        bounds(b.total().dom(), tlo2, thi2) && c.total() == dense(b.total(), tlo2, thi2);
    lemma_refill_same(a.total(), tlo, thi, tlo2, thi2);
}

/// Densifying `dense(m, lo, hi)` over the bounds of its own key set gives
/// back `dense(m, lo, hi)`: the bounds are again `(lo, hi)`.
proof fn lemma_refill_same(m: Map<u64, u64>, lo: u64, hi: u64, lo2: u64, hi2: u64)
    requires
        lo <= hi,
        bounds(dense(m, lo, hi).dom(), lo2, hi2),
    ensures
        lo2 == lo,
        hi2 == hi,
        dense(dense(m, lo, hi), lo2, hi2) == dense(m, lo, hi),
{
    assert(dense(m, lo, hi).dom() =~= interval(lo, hi));
    assert(interval(lo, hi).contains(lo));
    assert(interval(lo, hi).contains(hi));
    assert(interval(lo, hi) != Set::<u64>::empty()) by {
        assert(interval(lo, hi).contains(lo));
    }
    assert(is_lo(interval(lo, hi), lo2) && is_hi(interval(lo, hi), hi2));
    assert(lo2 == lo && hi2 == hi);
    lemma_dense_idempotent(m, lo, hi);
}

/// Conservation law for snapshots: each of the three dense scalar
/// histograms of a snapshot, and the copied joint histogram, sums to the
/// trial count of the aggregator it was taken from.
pub proof fn lemma_snapshot_sums(a: SimulationResult, b: SimulationResult)
    requires
        a.wf(),
        fills(a, b),
    ensures
        hist_sum(b.featured()) == b.simulation_count,
        hist_sum(b.standard()) == b.simulation_count,
        hist_sum(b.total()) == b.simulation_count,
        hist_sum(b.joint()) == b.simulation_count,
{
    lemma_dense_keeps_sum(a.featured(), b.ftd_range.0, b.ftd_range.1);
    lemma_dense_keeps_sum(a.standard(), b.std_range.0, b.std_range.1);
    let (tlo, thi) = choose|tlo: u64, thi: u64|
        bounds(a.total().dom(), tlo, thi) && b.total() == dense(a.total(), tlo, thi);
    lemma_dense_keeps_sum(a.total(), tlo, thi);
}

/// No entry of the joint histogram ever exceeds the trial count: a joint
/// bucket holds a subset of the completed trials.
pub proof fn lemma_joint_entry_le_trials(a: SimulationResult, f: u64, s: u64)
    requires
        a.wf(),
        a.joint().dom().contains((f, s)),
    ensures
        a.joint()[(f, s)] <= a.simulation_count,
{
    lemma_elem_le_sum(a.joint(), (f, s));
}

/// A densified histogram holds exactly the keys between the bounds its
/// snapshot records — none outside, none missing.
pub proof fn lemma_snapshot_keys_in_range(a: SimulationResult, b: SimulationResult)
    requires
        fills(a, b),
    ensures
        forall|k: u64| b.featured().dom().contains(k) <==> b.ftd_range.0 <= k <= b.ftd_range.1,
        forall|k: u64| b.standard().dom().contains(k) <==> b.std_range.0 <= k <= b.std_range.1,
{
}

} // verus!
