//! Stable ranking of candidates by a two-part key, best first.

use crate::text::{
    lemma_text_before_connected, lemma_text_before_irreflexive, lemma_text_before_transitive,
    str_before, text_before,
};
use vstd::prelude::*;

verus! {

/// What a candidate is ranked by: a number first, then a text. Larger ranks
/// first in both parts.
pub struct RankKey<'a> {
    pub major: i64,
    pub minor: &'a str,
}

/// The mathematical form of a `RankKey`.
pub ghost struct RankKeyView {
    pub major: int,
    pub minor: Seq<char>,
}

impl<'a> View for RankKey<'a> {
    type V = RankKeyView;

    open spec fn view(&self) -> RankKeyView {
        RankKeyView { major: self.major as int, minor: self.minor@ }
    }
}

/// The keys of a vector of candidates.
pub open spec fn key_views(keys: Seq<RankKey<'_>>) -> Seq<RankKeyView> {
    Seq::new(keys.len(), |i: int| keys[i]@)
}

/// Whether key `a` ranks strictly above key `b`.
pub open spec fn outranks(a: RankKeyView, b: RankKeyView) -> bool {
    a.major > b.major || (a.major == b.major && text_before(b.minor, a.minor))
}

/// Whether candidate `a` stands before candidate `b` in the ranking: its key
/// ranks above, or the keys tie and `a` was given first.
pub open spec fn precedes(keys: Seq<RankKeyView>, a: int, b: int) -> bool {
    outranks(keys[a], keys[b]) || (!outranks(keys[b], keys[a]) && a < b)
}

/// The first position at or after `from` whose candidate is outranked by
/// `key`; the length of `order` where there is none.
pub open spec fn slot(order: Seq<int>, keys: Seq<RankKeyView>, key: RankKeyView, from: int) -> int
    decreases order.len() - from,
{
    if from < 0 || from >= order.len() {
        order.len() as int
    } else if outranks(key, keys[order[from]]) {
        from
    } else {
        slot(order, keys, key, from + 1)
    }
}

/// The ranking of the first `n` candidates: their indices, best first.
pub open spec fn ranked_prefix(keys: Seq<RankKeyView>, n: nat) -> Seq<int>
    decreases n,
{
    if n == 0 {
        Seq::empty()
    } else {
        let before = ranked_prefix(keys, (n - 1) as nat);
        before.insert(slot(before, keys, keys[n - 1], 0), n - 1)
    }
}

/// The ranking of all candidates: their indices, best first, ties in the
/// order given.
pub open spec fn ranked(keys: Seq<RankKeyView>) -> Seq<int> {
    ranked_prefix(keys, keys.len())
}

/// The indices of a vector as mathematical integers.
pub open spec fn as_ints(order: Seq<usize>) -> Seq<int> {
    Seq::new(order.len(), |i: int| order[i] as int)
}

/// Whether key `a` ranks strictly above key `b`.
pub fn key_outranks(a: &RankKey<'_>, b: &RankKey<'_>) -> (r: bool)
    ensures
        r == outranks(a@, b@),
{
    a.major > b.major || (a.major == b.major && str_before(b.minor, a.minor))
}

/// Ranks the candidates with the given keys.
pub fn rank(keys: &Vec<RankKey<'_>>) -> (order: Vec<usize>)
    ensures
        as_ints(order@) == ranked(key_views(keys@)),
        order@.len() == keys@.len(),
{
    let ghost views = key_views(keys@);
    let mut order: Vec<usize> = Vec::new();
    let mut i: usize = 0;
    while i < keys.len()
        invariant
            i <= keys.len(),
            views == key_views(keys@),
            order@.len() == i,
            as_ints(order@) == ranked_prefix(views, i as nat),
            forall|j: int| 0 <= j < order@.len() ==> order@[j] < i,
        decreases keys.len() - i,
    {
        let ghost before = as_ints(order@);
        let mut p: usize = 0;
        while p < order.len() && !key_outranks(&keys[i], &keys[order[p]])
            invariant
                p <= order.len(),
                i < keys.len(),
                views == key_views(keys@),
                before == as_ints(order@),
                forall|j: int| 0 <= j < order@.len() ==> order@[j] < i,
                slot(before, views, views[i as int], 0) == slot(before, views, views[i as int], p as int),
            decreases order.len() - p,
        {
            p = p + 1;
        }
        order.insert(p, i);
        assert(as_ints(order@) =~= before.insert(p as int, i as int));
        i = i + 1;
    }
    order
}

/// A key that ranks above a second one ranks above whatever the second does
/// not rank below.
pub proof fn lemma_outranks_chain(a: RankKeyView, b: RankKeyView, c: RankKeyView)
    requires
        outranks(a, b),
        !outranks(c, b),
    ensures
        outranks(a, c),
{
    if a.major == b.major && b.major == c.major {
        if text_before(c.minor, b.minor) {
            lemma_text_before_transitive(c.minor, b.minor, a.minor);
        } else {
            lemma_text_before_connected(b.minor, c.minor);
        }
    }
}

/// Ranking above is transitive.
pub proof fn lemma_outranks_transitive(a: RankKeyView, b: RankKeyView, c: RankKeyView)
    requires
        outranks(a, b),
        outranks(b, c),
    ensures
        outranks(a, c),
{
    if a.major == b.major && b.major == c.major {
        lemma_text_before_transitive(c.minor, b.minor, a.minor);
    }
}

/// No key ranks above itself.
pub proof fn lemma_outranks_irreflexive(a: RankKeyView)
    ensures
        !outranks(a, a),
{
    lemma_text_before_irreflexive(a.minor);
}

/// Where `slot` lands: no candidate before it, from `from` on, is outranked
/// by `key`, and the candidate at it is.
pub proof fn lemma_slot(order: Seq<int>, keys: Seq<RankKeyView>, key: RankKeyView, from: int)
    requires
        0 <= from <= order.len(),
    ensures
        from <= slot(order, keys, key, from) <= order.len(),
        forall|j: int|
            from <= j < slot(order, keys, key, from) ==> !outranks(key, #[trigger] keys[order[j]]),
        slot(order, keys, key, from) < order.len() ==> outranks(
            key,
            keys[order[slot(order, keys, key, from)]],
        ),
    decreases order.len() - from,
{
    if from < order.len() && !outranks(key, keys[order[from]]) {
        lemma_slot(order, keys, key, from + 1);
    }
}

/// The ranking of the first `n` candidates holds each of them once, and each
/// stands before all that follow it.
pub proof fn lemma_ranked_prefix(keys: Seq<RankKeyView>, n: nat)
    requires
        n <= keys.len(),
    ensures
        ranked_prefix(keys, n).len() == n,
        forall|j: int| 0 <= j < n ==> 0 <= #[trigger] ranked_prefix(keys, n)[j] < n,
        forall|i: int| 0 <= i < n ==> ranked_prefix(keys, n).contains(i),
        forall|j: int, k: int|
            0 <= j < k < n ==> precedes(
                keys,
                #[trigger] ranked_prefix(keys, n)[j],
                #[trigger] ranked_prefix(keys, n)[k],
            ),
    decreases n,
{
    if n > 0 {
        let m = (n - 1) as nat;
        let before = ranked_prefix(keys, m);
        let key = keys[n - 1];
        let p = slot(before, keys, key, 0);
        let r = ranked_prefix(keys, n);
        lemma_ranked_prefix(keys, m);
        lemma_slot(before, keys, key, 0);
        assert(r == before.insert(p, n - 1));
        assert forall|i: int| 0 <= i < n implies r.contains(i) by {
            if i == n - 1 {
                assert(r[p] == i);
            } else {
                assert(before.contains(i));
                let j = choose|j: int| 0 <= j < before.len() && before[j] == i;
                if j < p {
                    assert(r[j] == i);
                } else {
                    assert(r[j + 1] == i);
                }
            }
        }
        assert forall|j: int, k: int| 0 <= j < k < n implies precedes(keys, #[trigger] r[j], #[trigger] r[k]) by {
            if k == p {
                assert(r[j] == before[j]);
                assert(!outranks(key, keys[before[j]]));
            } else if j == p {
                assert(r[k] == before[k - 1]);
                if k - 1 > p {
                    assert(precedes(keys, before[p], before[k - 1]));
                    if outranks(keys[before[p]], keys[before[k - 1]]) {
                        lemma_outranks_transitive(key, keys[before[p]], keys[before[k - 1]]);
                    } else {
                        lemma_outranks_chain(key, keys[before[p]], keys[before[k - 1]]);
                    }
                }
            } else {
                let j0 = if j < p { j } else { j - 1 };
                let k0 = if k < p { k } else { k - 1 };
                assert(r[j] == before[j0]);
                assert(r[k] == before[k0]);
                assert(precedes(keys, before[j0], before[k0]));
            }
        }
    }
}

/// The ranking is a rearrangement of the candidates in which each stands
/// before all that follow it: keys never ascend, and candidates whose keys tie
/// keep the order in which they were given.
pub proof fn lemma_ranked_is_sorted(keys: Seq<RankKeyView>)
    ensures
        ranked(keys).len() == keys.len(),
        forall|j: int| 0 <= j < keys.len() ==> 0 <= #[trigger] ranked(keys)[j] < keys.len(),
        forall|i: int| 0 <= i < keys.len() ==> ranked(keys).contains(i),
        forall|j: int, k: int|
            0 <= j < k < keys.len() ==> precedes(
                keys,
                #[trigger] ranked(keys)[j],
                #[trigger] ranked(keys)[k],
            ),
{
    lemma_ranked_prefix(keys, keys.len());
}

} // verus!
