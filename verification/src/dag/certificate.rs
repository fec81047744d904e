//! Why a ranking, an order and a cycle exclude one another.

use vstd::prelude::*;
use super::adjacency::has_arc;
use super::cycle::{is_arc_cycle, is_ranking};
use super::order::{covers_all, is_arc_order, is_stuck, listed};

verus! {

proof fn lemma_climb(
    adj: Seq<Vec<usize>>,
    rank: Seq<nat>,
    order: Seq<usize>,
    start: int,
    k: nat,
) -> (v: int)
    requires
        is_ranking(adj, rank),
        is_stuck(adj, order),
        0 <= start < adj.len(),
        !listed(order, start),
    ensures
        0 <= v < adj.len(),
        !listed(order, v),
        rank[v] >= k,
    decreases k,
{
    if k == 0 {
        start
    } else {
        let w = lemma_climb(adj, rank, order, start, (k - 1) as nat);
        let u = choose|u: int| 0 <= u < adj.len() && !listed(order, u) && #[trigger] has_arc(adj, u, w);
        u
    }
}

/// Where a ranking exists, a stuck order lists every node: climbing from an
/// unlisted node to an unlisted predecessor would raise the rank without
/// end.
pub proof fn lemma_ranking_not_stuck(adj: Seq<Vec<usize>>, rank: Seq<nat>, order: Seq<usize>)
    requires
        is_ranking(adj, rank),
        is_stuck(adj, order),
    ensures
        covers_all(adj, order),
{
    assert forall|v: int| 0 <= v < adj.len() implies #[trigger] listed(order, v) by {
        if !listed(order, v) {
            let w = lemma_climb(adj, rank, order, v, adj.len());
        }
    }
}

proof fn lemma_rank_falls(adj: Seq<Vec<usize>>, rank: Seq<nat>, c: Seq<usize>, i: int)
    requires
        is_ranking(adj, rank),
        is_arc_cycle(adj, c),
        0 <= i < c.len(),
    ensures
        rank[c[i] as int] + i <= rank[c[0] as int],
    decreases i,
{
    if i > 0 {
        lemma_rank_falls(adj, rank, c, i - 1);
        assert(has_arc(adj, c[i - 1] as int, c[i] as int));
    }
}

/// A graph with a ranking has no cycle.
pub proof fn lemma_ranking_no_cycle(adj: Seq<Vec<usize>>, rank: Seq<nat>, c: Seq<usize>)
    requires
        is_ranking(adj, rank),
    ensures
        !is_arc_cycle(adj, c),
{
    if is_arc_cycle(adj, c) {
        lemma_rank_falls(adj, rank, c, c.len() - 1);
    }
}

/// The position of a listed node.
pub open spec fn position(order: Seq<usize>, v: int) -> int {
    choose|p: int| 0 <= p < order.len() && #[trigger] order[p] == v
}

/// A complete order along the arcs yields a ranking.
pub proof fn lemma_order_ranking(adj: Seq<Vec<usize>>, order: Seq<usize>) -> (rank: Seq<nat>)
    requires
        is_arc_order(adj, order),
        covers_all(adj, order),
        order.len() == adj.len(),
    ensures
        is_ranking(adj, rank),
{
    let n = adj.len();
    let rank = Seq::new(n, |v: int| (n - 1 - position(order, v)) as nat);
    assert forall|v: int| 0 <= v < n implies 0 <= position(order, v) < n && order[position(order, v)] == v by {
        assert(listed(order, v));
    }
    assert forall|u: int, v: int| 0 <= u < n && 0 <= v < n && #[trigger] has_arc(adj, u, v) implies rank[v]
        < rank[u] by {
        let p = position(order, u);
        let q = position(order, v);
        assert(0 <= p < n && order[p] == u);
        assert(0 <= q < n && order[q] == v);
        assert(has_arc(adj, order[p] as int, order[q] as int));
    }
    rank
}

} // verus!
