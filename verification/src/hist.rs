use std::collections::hash_map::RandomState;
use vstd::prelude::*;

verus! {

/// Declares indexmap's ordered map so that it can stand in fields and
/// signatures; its contents are reached only through the named views and
/// the wrappers below.
#[verifier::external_type_specification]
#[verifier::external_body]
#[verifier::reject_recursive_types(K)]
#[verifier::reject_recursive_types(V)]
#[verifier::reject_recursive_types(S)]
pub struct ExIndexMap<K, V, S>(indexmap::IndexMap<K, V, S>);

/// What a scalar histogram holds: its key-to-count mapping.
pub uninterp spec fn scalar_hist(m: indexmap::IndexMap<u64, u64, RandomState>) -> Map<u64, u64>;

/// What a joint histogram holds: its pair-key-to-count mapping.
pub uninterp spec fn joint_hist(m: indexmap::IndexMap<(u64, u64), u64, RandomState>) -> Map<
    (u64, u64),
    u64,
>;

/// The empty scalar histogram contents.
pub open spec fn scalar_empty() -> Map<u64, u64> {
    Map::empty()
}

/// The empty joint histogram contents.
pub open spec fn joint_empty() -> Map<(u64, u64), u64> {
    Map::empty()
}

/// Relies on `IndexMap::new`: an empty map.
#[verifier::external_body]
pub(crate) fn scalar_new() -> (r: indexmap::IndexMap<u64, u64, RandomState>)
    ensures
        scalar_hist(r) == scalar_empty(),
{
    indexmap::IndexMap::new()
}

/// Relies on `IndexMap::get`: the value stored under the key, if any.
#[verifier::external_body]
pub(crate) fn scalar_get(m: &indexmap::IndexMap<u64, u64, RandomState>, k: u64) -> (r: Option<
    u64,
>)
    ensures
        r == if scalar_hist(*m).dom().contains(k) {
            Some(scalar_hist(*m)[k])
        } else {
            Option::<u64>::None
        },
{
    m.get(&k).copied()
}

/// Relies on `IndexMap::insert`: stores the value under the key, replacing
/// any earlier value.
#[verifier::external_body]
pub(crate) fn scalar_insert(m: &mut indexmap::IndexMap<u64, u64, RandomState>, k: u64, v: u64)
    ensures
        scalar_hist(*final(m)) == scalar_hist(*old(m)).insert(k, v),
{
    m.insert(k, v);
}

/// Relies on `IndexMap::keys`: every key exactly once (in insertion order,
/// which the callers do not depend on).
#[verifier::external_body]
pub(crate) fn scalar_keys(m: &indexmap::IndexMap<u64, u64, RandomState>) -> (r: Vec<u64>)
    ensures
        r@.to_set() == scalar_hist(*m).dom(),
        r@.no_duplicates(),
{
    m.keys().copied().collect()
}

/// Relies on `IndexMap::new`: an empty map.
#[verifier::external_body]
pub(crate) fn joint_new() -> (r: indexmap::IndexMap<(u64, u64), u64, RandomState>)
    ensures
        joint_hist(r) == joint_empty(),
{
    indexmap::IndexMap::new()
}

/// Relies on `IndexMap::get`: the value stored under the key, if any.
#[verifier::external_body]
pub(crate) fn joint_get(m: &indexmap::IndexMap<(u64, u64), u64, RandomState>, k: (u64, u64)) -> (r:
    Option<u64>)
    ensures
        r == if joint_hist(*m).dom().contains(k) {
            Some(joint_hist(*m)[k])
        } else {
            Option::<u64>::None
        },
{
    m.get(&k).copied()
}

/// Relies on `IndexMap::insert`: stores the value under the key, replacing
/// any earlier value.
#[verifier::external_body]
pub(crate) fn joint_insert(
    m: &mut indexmap::IndexMap<(u64, u64), u64, RandomState>,
    k: (u64, u64),
    v: u64,
)
    ensures
        joint_hist(*final(m)) == joint_hist(*old(m)).insert(k, v),
{
    m.insert(k, v);
}

/// Relies on `IndexMap::keys`: every key exactly once.
#[verifier::external_body]
pub(crate) fn joint_keys(m: &indexmap::IndexMap<(u64, u64), u64, RandomState>) -> (r: Vec<
    (u64, u64),
>)
    ensures
        r@.to_set() == joint_hist(*m).dom(),
        r@.no_duplicates(),
{
    m.keys().copied().collect()
}

/// Relies on `IndexMap::clone`: an equal map.
#[verifier::external_body]
pub(crate) fn joint_clone(m: &indexmap::IndexMap<(u64, u64), u64, RandomState>) -> (r:
    indexmap::IndexMap<(u64, u64), u64, RandomState>)
    ensures
        joint_hist(r) == joint_hist(*m),
{
    m.clone()
}

/// The count under a key, zero where the key is absent.
pub open spec fn val_or_zero<K>(m: Map<K, u64>, k: K) -> int {
    if m.dom().contains(k) {
        m[k] as int
    } else {
        0
    }
}

/// The sum of every count in a histogram (zero for an infinite domain,
/// which never arises here).
pub open spec fn hist_sum<K>(m: Map<K, u64>) -> int
    decreases m.dom().len(),
{
    if !m.dom().finite() || m.dom().len() == 0 {
        0
    } else {
        let k = m.dom().choose();
        m[k] + hist_sum(m.remove(k))
    }
}

pub proof fn lemma_hist_sum_nonneg<K>(m: Map<K, u64>)
    ensures
        hist_sum(m) >= 0,
    decreases m.dom().len(),
{
    if m.dom().finite() && m.dom().len() > 0 {
        lemma_hist_sum_nonneg(m.remove(m.dom().choose()));
    }
}

/// Taking one key out takes exactly its count out of the sum.
pub proof fn lemma_hist_sum_remove<K>(m: Map<K, u64>, k: K)
    requires
        m.dom().finite(),
        m.dom().contains(k),
    ensures
        hist_sum(m) == hist_sum(m.remove(k)) + m[k],
    decreases m.dom().len(),
{
    let c = m.dom().choose();
    if c == k {
    } else {
        lemma_hist_sum_remove(m.remove(c), k);
        lemma_hist_sum_remove(m.remove(k), c);
        assert(m.remove(c).remove(k) =~= m.remove(k).remove(c));
    }
}

/// Writing a count under a key moves the sum by the difference with the
/// count that was there.
pub proof fn lemma_hist_sum_insert<K>(m: Map<K, u64>, k: K, v: u64)
    requires
        m.dom().finite(),
    ensures
        hist_sum(m.insert(k, v)) == hist_sum(m) - val_or_zero(m, k) + v,
{
    lemma_hist_sum_remove(m.insert(k, v), k);
    if m.dom().contains(k) {
        lemma_hist_sum_remove(m, k);
        assert(m.insert(k, v).remove(k) =~= m.remove(k));
    } else {
        assert(m.insert(k, v).remove(k) =~= m);
    }
}

/// No single count exceeds the sum of all of them.
pub proof fn lemma_elem_le_sum<K>(m: Map<K, u64>, k: K)
    requires
        m.dom().finite(),
        m.dom().contains(k),
    ensures
        m[k] <= hist_sum(m),
{
    lemma_hist_sum_remove(m, k);
    lemma_hist_sum_nonneg(m.remove(k));
}

/// The contiguous key range `[lo, hi]`.
pub open spec fn interval(lo: u64, hi: u64) -> Set<u64> {
    Set::new(|k: u64| lo <= k <= hi)
}

pub proof fn lemma_interval_finite(lo: u64, hi: u64)
    ensures
        interval(lo, hi).finite(),
    decreases hi - lo,
{
    if lo > hi {
        assert(interval(lo, hi) =~= Set::empty());
    } else if lo == hi {
        assert(interval(lo, hi) =~= Set::empty().insert(lo));
    } else {
        lemma_interval_finite(lo, (hi - 1) as u64);
        assert(interval(lo, hi) =~= interval(lo, (hi - 1) as u64).insert(hi));
    }
}

/// The gap-filled version of a histogram over `[lo, hi]`: every key in the
/// range is present, carrying its sparse count or zero.
pub open spec fn dense(m: Map<u64, u64>, lo: u64, hi: u64) -> Map<u64, u64> {
    Map::new(
        |k: u64| lo <= k <= hi,
        |k: u64|
            if m.dom().contains(k) {
                m[k]
            } else {
                0u64
            },
    )
}

/// Densifying twice over the same range changes nothing more.
pub proof fn lemma_dense_idempotent(m: Map<u64, u64>, lo: u64, hi: u64)
    ensures
        dense(dense(m, lo, hi), lo, hi) == dense(m, lo, hi),
{
    assert(dense(dense(m, lo, hi), lo, hi) =~= dense(m, lo, hi));
}

/// The sum of the counts a histogram shows on the keys of `[lo, hi]`,
/// absent keys counting zero.
pub open spec fn range_sum(m: Map<u64, u64>, lo: u64, hi: u64) -> int
    decreases hi - lo,
{
    if lo > hi {
        0
    } else if lo == hi {
        val_or_zero(m, lo)
    } else {
        val_or_zero(m, lo) + range_sum(m, (lo + 1) as u64, hi)
    }
}

pub proof fn lemma_range_sum_congruent(m1: Map<u64, u64>, m2: Map<u64, u64>, lo: u64, hi: u64)
    requires
        forall|k: u64| lo <= k <= hi ==> val_or_zero(m1, k) == val_or_zero(m2, k),
    ensures
        range_sum(m1, lo, hi) == range_sum(m2, lo, hi),
    decreases hi - lo,
{
    if lo < hi {
        lemma_range_sum_congruent(m1, m2, (lo + 1) as u64, hi);
    }
}

pub proof fn lemma_range_sum_split_last(m: Map<u64, u64>, lo: u64, hi: u64)
    requires
        lo < hi,
    ensures
        range_sum(m, lo, hi) == range_sum(m, lo, (hi - 1) as u64) + val_or_zero(m, hi),
    decreases hi - lo,
{
    if lo + 1 < hi {
        lemma_range_sum_split_last(m, (lo + 1) as u64, hi);
        assert(range_sum(m, lo, hi) == val_or_zero(m, lo) + range_sum(m, (lo + 1) as u64, hi));
        assert(range_sum(m, lo, (hi - 1) as u64) == val_or_zero(m, lo) + range_sum(
            m,
            (lo + 1) as u64,
            (hi - 1) as u64,
        ));
    } else {
        assert(lo == (hi - 1) as u64);
        assert(range_sum(m, lo, hi) == val_or_zero(m, lo) + range_sum(m, hi, hi));
    }
}

/// On a histogram whose keys all lie in `[lo, hi]`, the range sum is the
/// whole sum.
pub proof fn lemma_hist_sum_is_range_sum(m: Map<u64, u64>, lo: u64, hi: u64)
    requires
        m.dom().finite(),
        forall|k: u64| m.dom().contains(k) ==> lo <= k <= hi,
    ensures
        hist_sum(m) == range_sum(m, lo, hi),
    decreases hi - lo,
{
    if lo > hi {
        assert(m.dom() =~= Set::empty());
        assert(m.dom().len() == 0);
    } else if lo == hi {
        if m.dom().contains(lo) {
            lemma_hist_sum_remove(m, lo);
            assert(m.remove(lo).dom() =~= Set::empty());
            assert(m.remove(lo).dom().len() == 0);
        } else {
            assert(m.dom() =~= Set::empty());
            assert(m.dom().len() == 0);
        }
    } else {
        lemma_range_sum_split_last(m, lo, hi);
        if m.dom().contains(hi) {
            lemma_hist_sum_remove(m, hi);
            lemma_hist_sum_is_range_sum(m.remove(hi), lo, (hi - 1) as u64);
            lemma_range_sum_congruent(m.remove(hi), m, lo, (hi - 1) as u64);
        } else {
            lemma_hist_sum_is_range_sum(m, lo, (hi - 1) as u64);
        }
    }
}

/// Filling the gaps of a histogram with zeroes keeps the sum of its counts.
pub proof fn lemma_dense_keeps_sum(m: Map<u64, u64>, lo: u64, hi: u64)
    requires
        m.dom().finite(),
        forall|k: u64| m.dom().contains(k) ==> lo <= k <= hi,
    ensures
        hist_sum(dense(m, lo, hi)) == hist_sum(m),
{
    lemma_interval_finite(lo, hi);
    assert(dense(m, lo, hi).dom() =~= interval(lo, hi));
    lemma_hist_sum_is_range_sum(dense(m, lo, hi), lo, hi);
    lemma_range_sum_congruent(dense(m, lo, hi), m, lo, hi);
    lemma_hist_sum_is_range_sum(m, lo, hi);
}

} // verus!
