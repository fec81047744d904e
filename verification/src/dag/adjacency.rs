//! Adjacency lists over node indices, and the counting facts that the
//! ordering and the cycle search rest on.

use vstd::prelude::*;

verus! {

/// Every target of every list is the index of a node.
pub open spec fn valid_adj(adj: Seq<Vec<usize>>) -> bool {
    forall|u: int, k: int|
        0 <= u < adj.len() && 0 <= k < adj[u]@.len() ==> (#[trigger] adj[u]@[k]) < adj.len()
}

/// There is an arc from node `u` to node `v`.
pub open spec fn has_arc(adj: Seq<Vec<usize>>, u: int, v: int) -> bool {
    0 <= u < adj.len() && exists|k: int| 0 <= k < adj[u]@.len() && #[trigger] adj[u]@[k] == v
}

/// How often `v` occurs in `row`.
pub open spec fn occurrences(row: Seq<usize>, v: int) -> nat
    decreases row.len(),
{
    if row.len() == 0 {
        0
    } else {
        occurrences(row.drop_last(), v) + if row.last() == v {
            1nat
        } else {
            0nat
        }
    }
}

/// The number of arcs into `v` that leave one of the first `upto` nodes not
/// yet marked in `done`, counted with multiplicity.
pub open spec fn pending_in(adj: Seq<Vec<usize>>, done: Seq<bool>, v: int, upto: int) -> nat
    decreases upto,
{
    if upto <= 0 {
        0
    } else {
        pending_in(adj, done, v, upto - 1) + if done[upto - 1] {
            0nat
        } else {
            occurrences(adj[upto - 1]@, v)
        }
    }
}

/// How many entries of `s` are `true`.
pub open spec fn count_true(s: Seq<bool>) -> nat
    decreases s.len(),
{
    if s.len() == 0 {
        0
    } else {
        count_true(s.drop_last()) + if s.last() {
            1nat
        } else {
            0nat
        }
    }
}

pub proof fn lemma_occurrences_step(row: Seq<usize>, k: int, v: int)
    requires
        0 <= k < row.len(),
    ensures
        occurrences(row.take(k + 1), v) == occurrences(row.take(k), v) + if row[k] == v {
            1nat
        } else {
            0nat
        },
{
    assert(row.take(k + 1).drop_last() =~= row.take(k));
}

pub proof fn lemma_occurrences_prefix(row: Seq<usize>, k: int, v: int)
    requires
        0 <= k <= row.len(),
    ensures
        occurrences(row.take(k), v) <= occurrences(row, v),
        occurrences(row.take(k), v) <= k,
    decreases row.len() - k,
{
    lemma_occurrences_bound(row.take(k), v);
    if k == row.len() {
        assert(row.take(k) =~= row);
    } else {
        lemma_occurrences_step(row, k, v);
        lemma_occurrences_prefix(row, k + 1, v);
    }
}

pub proof fn lemma_occurrences_bound(row: Seq<usize>, v: int)
    ensures
        occurrences(row, v) <= row.len(),
    decreases row.len(),
{
    if row.len() > 0 {
        lemma_occurrences_bound(row.drop_last(), v);
    }
}

pub proof fn lemma_occurrences_contains(row: Seq<usize>, v: int)
    ensures
        occurrences(row, v) > 0 <==> exists|k: int| 0 <= k < row.len() && #[trigger] row[k] == v,
    decreases row.len(),
{
    if row.len() > 0 {
        let init = row.drop_last();
        lemma_occurrences_contains(init, v);
        if occurrences(row, v) > 0 {
            if row.last() == v {
                assert(row[row.len() - 1] == v);
            } else {
                let k = choose|k: int| 0 <= k < init.len() && #[trigger] init[k] == v;
                assert(row[k] == v);
            }
        }
        if exists|k: int| 0 <= k < row.len() && #[trigger] row[k] == v {
            let k = choose|k: int| 0 <= k < row.len() && #[trigger] row[k] == v;
            if k < row.len() - 1 {
                assert(init[k] == v);
            }
        }
    }
}

pub proof fn lemma_pending_bound(adj: Seq<Vec<usize>>, done: Seq<bool>, v: int, upto: int)
    requires
        0 <= upto <= adj.len(),
    ensures
        pending_in(adj, done, v, upto) <= upto * usize::MAX,
    decreases upto,
{
    if upto > 0 {
        lemma_pending_bound(adj, done, v, upto - 1);
        lemma_occurrences_bound(adj[upto - 1]@, v);
        assert(adj[upto - 1]@.len() == adj[upto - 1].len());
        assert((upto - 1) * usize::MAX + usize::MAX == upto * usize::MAX) by (nonlinear_arith);
    } else {
        assert(0 * usize::MAX == 0) by (nonlinear_arith);
    }
}

/// Marking one more node removes exactly its arcs from the count.
pub proof fn lemma_pending_mark(adj: Seq<Vec<usize>>, done: Seq<bool>, u: int, v: int, upto: int)
    requires
        0 <= upto <= adj.len(),
        done.len() == adj.len(),
        0 <= u < adj.len(),
        !done[u],
    ensures
        pending_in(adj, done, v, upto) == pending_in(adj, done.update(u, true), v, upto) + if u
            < upto {
            occurrences(adj[u]@, v)
        } else {
            0nat
        },
    decreases upto,
{
    if upto > 0 {
        lemma_pending_mark(adj, done, u, v, upto - 1);
    }
}

/// A count of zero leaves no arc from an unmarked node.
pub proof fn lemma_pending_zero(adj: Seq<Vec<usize>>, done: Seq<bool>, u: int, v: int, upto: int)
    requires
        0 <= u < upto <= adj.len(),
        done.len() == adj.len(),
        pending_in(adj, done, v, upto) == 0,
        !done[u],
    ensures
        !has_arc(adj, u, v),
    decreases upto,
{
    if u == upto - 1 {
        lemma_occurrences_contains(adj[u]@, v);
    } else {
        lemma_pending_zero(adj, done, u, v, upto - 1);
    }
}

/// A positive count comes from some unmarked node with an arc.
pub proof fn lemma_pending_positive(adj: Seq<Vec<usize>>, done: Seq<bool>, v: int, upto: int) -> (u:
    int)
    requires
        0 <= upto <= adj.len(),
        done.len() == adj.len(),
        pending_in(adj, done, v, upto) > 0,
    ensures
        0 <= u < upto,
        !done[u],
        has_arc(adj, u, v),
    decreases upto,
{
    if !done[upto - 1] && occurrences(adj[upto - 1]@, v) > 0 {
        lemma_occurrences_contains(adj[upto - 1]@, v);
        upto - 1
    } else {
        lemma_pending_positive(adj, done, v, upto - 1)
    }
}

pub proof fn lemma_count_true_bound(s: Seq<bool>)
    ensures
        count_true(s) <= s.len(),
    decreases s.len(),
{
    if s.len() > 0 {
        lemma_count_true_bound(s.drop_last());
    }
}

pub proof fn lemma_count_true_set(s: Seq<bool>, i: int)
    requires
        0 <= i < s.len(),
        !s[i],
    ensures
        count_true(s.update(i, true)) == count_true(s) + 1,
    decreases s.len(),
{
    let t = s.update(i, true);
    if i == s.len() - 1 {
        assert(t.drop_last() =~= s.drop_last());
    } else {
        lemma_count_true_set(s.drop_last(), i);
        assert(t.drop_last() =~= s.drop_last().update(i, true));
    }
}

/// A full count means that every entry is `true`.
pub proof fn lemma_count_true_full(s: Seq<bool>, i: int)
    requires
        0 <= i < s.len(),
        count_true(s) == s.len(),
    ensures
        s[i],
    decreases s.len(),
{
    lemma_count_true_bound(s.drop_last());
    if i < s.len() - 1 {
        lemma_count_true_full(s.drop_last(), i);
    }
}

pub proof fn lemma_count_true_empty(s: Seq<bool>)
    requires
        forall|i: int| 0 <= i < s.len() ==> !s[i],
    ensures
        count_true(s) == 0,
    decreases s.len(),
{
    if s.len() > 0 {
        lemma_count_true_empty(s.drop_last());
    }
}

} // verus!
