//! Kahn's algorithm over node indices, with last-in-first-out selection.

use vstd::prelude::*;
use super::adjacency::{
    count_true, has_arc, lemma_count_true_bound, lemma_count_true_empty, lemma_count_true_full,
    lemma_count_true_set, lemma_occurrences_prefix, lemma_occurrences_step, lemma_pending_bound,
    lemma_pending_mark, lemma_pending_positive, lemma_pending_zero, occurrences, pending_in,
    valid_adj,
};

verus! {

/// `order` lists distinct nodes, and no arc leads from a listed node to
/// itself or to one listed before it.
pub open spec fn is_arc_order(adj: Seq<Vec<usize>>, order: Seq<usize>) -> bool {
    &&& order.no_duplicates()
    &&& forall|p: int| 0 <= p < order.len() ==> (#[trigger] order[p]) < adj.len()
    &&& forall|p: int, q: int|
        0 <= p < order.len() && 0 <= q < order.len() && has_arc(
            adj,
            order[p] as int,
            order[q] as int,
        ) ==> p < q
}

/// Node `v` occurs in `order`.
pub open spec fn listed(order: Seq<usize>, v: int) -> bool {
    exists|p: int| 0 <= p < order.len() && #[trigger] order[p] == v
}

/// Every node that `order` leaves out has an arc from another node that it
/// leaves out.
pub open spec fn is_stuck(adj: Seq<Vec<usize>>, order: Seq<usize>) -> bool {
    forall|v: int|
        0 <= v < adj.len() && !#[trigger] listed(order, v) ==> exists|u: int|
            0 <= u < adj.len() && !listed(order, u) && #[trigger] has_arc(adj, u, v)
}

/// Every node is listed.
pub open spec fn covers_all(adj: Seq<Vec<usize>>, order: Seq<usize>) -> bool {
    forall|v: int| 0 <= v < adj.len() ==> #[trigger] listed(order, v)
}

/// The adjacency lists as sequences.
pub open spec fn rows_of(adj: Seq<Vec<usize>>) -> Seq<Seq<usize>> {
    adj.map_values(|r: Vec<usize>| r@)
}

/// The number of arcs into `v` that leave one of the first `upto` nodes,
/// counted with multiplicity.
pub open spec fn arcs_into(rows: Seq<Seq<usize>>, v: int, upto: int) -> nat
    decreases upto,
{
    if upto <= 0 {
        0
    } else {
        arcs_into(rows, v, upto - 1) + occurrences(rows[upto - 1], v)
    }
}

/// The in-degree of every node.
pub open spec fn initial_degrees(rows: Seq<Seq<usize>>) -> Seq<nat> {
    Seq::new(rows.len(), |v: int| arcs_into(rows, v, rows.len() as int))
}

/// The nodes among the first `upto` that have no arc into them, in
/// ascending order.
pub open spec fn free_nodes(degrees: Seq<nat>, upto: int) -> Seq<usize>
    decreases upto,
{
    if upto <= 0 {
        Seq::empty()
    } else if degrees[upto - 1] == 0 {
        free_nodes(degrees, upto - 1).push((upto - 1) as usize)
    } else {
        free_nodes(degrees, upto - 1)
    }
}

/// The state of the ordering: for every node the number of arcs into it
/// from nodes not yet listed, the free nodes that wait, and the order so
/// far.
pub struct KahnState {
    pub degrees: Seq<nat>,
    pub queue: Seq<usize>,
    pub result: Seq<usize>,
}

/// The state after the arcs to the first `upto` targets of `row` are
/// gone: each target loses one arc, and joins the queue when it has none
/// left.
pub open spec fn release(st: KahnState, row: Seq<usize>, upto: int) -> KahnState
    decreases upto,
{
    if upto <= 0 {
        st
    } else {
        let s = release(st, row, upto - 1);
        let c = row[upto - 1];
        let d = (s.degrees[c as int] - 1) as nat;
        KahnState {
            degrees: s.degrees.update(c as int, d),
            queue: if d == 0 {
                s.queue.push(c)
            } else {
                s.queue
            },
            result: s.result,
        }
    }
}

/// One step: the free node that joined the queue last is listed, and the
/// arcs that leave it are gone.
pub open spec fn kahn_step(rows: Seq<Seq<usize>>, st: KahnState) -> KahnState {
    let node = st.queue.last();
    release(
        KahnState { degrees: st.degrees, queue: st.queue.drop_last(), result: st.result.push(node) },
        rows[node as int],
        rows[node as int].len() as int,
    )
}

/// Up to `fuel` steps, until no free node waits.
pub open spec fn kahn_run(rows: Seq<Seq<usize>>, st: KahnState, fuel: nat) -> KahnState
    decreases fuel,
{
    if fuel == 0 || st.queue.len() == 0 {
        st
    } else {
        kahn_run(rows, kahn_step(rows, st), (fuel - 1) as nat)
    }
}

/// The order in which Kahn's algorithm lists the nodes when it starts from
/// the free nodes in ascending order and always takes the one that became
/// free last.
pub open spec fn lifo_order(rows: Seq<Seq<usize>>) -> Seq<usize> {
    let degrees = initial_degrees(rows);
    kahn_run(
        rows,
        KahnState { degrees, queue: free_nodes(degrees, rows.len() as int), result: Seq::empty() },
        rows.len(),
    ).result
}

/// The counters as numbers.
pub open spec fn counters(v: Seq<u128>) -> Seq<nat> {
    v.map_values(|x: u128| x as nat)
}

proof fn lemma_arcs_into(adj: Seq<Vec<usize>>, v: int, upto: int)
    requires
        0 <= upto <= adj.len(),
    ensures
        arcs_into(rows_of(adj), v, upto) == pending_in(
            adj,
            Seq::new(adj.len(), |i: int| false),
            v,
            upto,
        ),
    decreases upto,
{
    if upto > 0 {
        lemma_arcs_into(adj, v, upto - 1);
    }
}

/// Counts the arcs into every node.
fn count_in_degrees(adj: &Vec<Vec<usize>>) -> (in_degree: Vec<u128>)
    requires
        valid_adj(adj@),
    ensures
        in_degree.len() == adj.len(),
        forall|v: int|
            0 <= v < adj.len() ==> (#[trigger] in_degree[v]) == pending_in(
                adj@,
                Seq::new(adj.len() as nat, |i: int| false),
                v,
                adj.len() as int,
            ),
{
    let n = adj.len();
    let ghost none = Seq::new(n as nat, |i: int| false);
    let mut in_degree: Vec<u128> = Vec::new();
    let mut i: usize = 0;
    while i < n
        invariant
            i <= n,
            in_degree.len() == i,
            forall|j: int| 0 <= j < i ==> (#[trigger] in_degree[j]) == 0,
        decreases n - i,
    {
        in_degree.push(0);
        i += 1;
    }
    let mut u: usize = 0;
    while u < n
        invariant
            u <= n,
            n == adj.len(),
            in_degree.len() == n,
            valid_adj(adj@),
            none == Seq::new(n as nat, |i: int| false),
            forall|v: int|
                0 <= v < n ==> (#[trigger] in_degree[v]) == pending_in(adj@, none, v, u as int),
        decreases n - u,
    {
        let row = &adj[u];
        let mut k: usize = 0;
        while k < row.len()
            invariant
                k <= row.len(),
                u < n,
                n == adj.len(),
                in_degree.len() == n,
                valid_adj(adj@),
                *row == adj@[u as int],
                forall|v: int|
                    0 <= v < n ==> (#[trigger] in_degree[v]) == pending_in(adj@, none, v, u as int)
                        + occurrences(row@.take(k as int), v),
            decreases row.len() - k,
        {
            let c = row[k];
            assert(c < n);
            proof {
                lemma_pending_bound(adj@, none, c as int, u as int);
                lemma_occurrences_prefix(row@, k as int, c as int);
                assert(u * usize::MAX + k < 0xffff_ffff_ffff_ffff_ffff_ffff_ffff_ffff) by (nonlinear_arith)
                    requires
                        u <= usize::MAX,
                        k <= usize::MAX,
                        usize::MAX <= 0xffff_ffff_ffff_ffff,
                ;
                assert forall|v: int| 0 <= v < n implies occurrences(row@.take(k + 1), v)
                    == occurrences(row@.take(k as int), v) + if c == v {
                    1nat
                } else {
                    0nat
                } by {
                    lemma_occurrences_step(row@, k as int, v);
                }
            }
            let bumped = in_degree[c] + 1;
            in_degree.set(c, bumped);
            k += 1;
        }
        assert(row@.take(row.len() as int) =~= row@);
        u += 1;
    }
    in_degree
}

/// Orders the nodes so that every arc leads forward, taking at each step the
/// node that became free last. Nodes on a cycle, and those that can only be
/// reached through one, are left out.
pub fn kahn_order(adj: &Vec<Vec<usize>>) -> (order: Vec<usize>)
    requires
        valid_adj(adj@),
    ensures
        is_arc_order(adj@, order@),
        order.len() <= adj.len(),
        order.len() == adj.len() ==> covers_all(adj@, order@),
        order.len() < adj.len() ==> is_stuck(adj@, order@),
        order@ == lifo_order(rows_of(adj@)),
{
    let n = adj.len();
    let ghost rows = rows_of(adj@);
    let mut in_degree = count_in_degrees(adj);
    proof {
        assert(counters(in_degree@) =~= initial_degrees(rows)) by {
            assert forall|v: int| 0 <= v < n implies counters(in_degree@)[v] == initial_degrees(rows)[v] by {
                lemma_arcs_into(adj@, v, n as int);
            }
        }
    }
    let ghost mut done = Seq::new(n as nat, |i: int| false);
    let mut queue: Vec<usize> = Vec::new();
    let mut v: usize = 0;
    while v < n
        invariant
            v <= n,
            in_degree.len() == n,
            queue@.no_duplicates(),
            queue@ == free_nodes(counters(in_degree@), v as int),
            forall|i: int| 0 <= i < queue.len() ==> (#[trigger] queue[i]) < v && in_degree[queue[i] as int] == 0,
            forall|w: int| 0 <= w < v && in_degree[w] == 0 ==> listed(queue@, w),
        decreases n - v,
    {
        if in_degree[v] == 0 {
            let ghost queue_mid = queue@;
            queue.push(v);
            proof {
                assert(queue@[queue.len() - 1] == v);
                assert forall|w: int| 0 <= w < v + 1 && in_degree[w] == 0 implies listed(
                    queue@,
                    w,
                ) by {
                    if w < v {
                        assert(listed(queue_mid, w));
                        let i = choose|i: int| 0 <= i < queue_mid.len() && queue_mid[i] == w;
                        assert(queue@[i] == w);
                    }
                }
            }
        }
        v += 1;
    }
    let mut result: Vec<usize> = Vec::new();
    let ghost target = kahn_run(
        rows,
        KahnState { degrees: counters(in_degree@), queue: queue@, result: Seq::empty() },
        n as nat,
    );
    proof {
        lemma_count_true_empty(done);
    }
    while queue.len() > 0
        invariant
            n == adj.len(),
            valid_adj(adj@),
            rows == rows_of(adj@),
            target.result == lifo_order(rows),
            kahn_run(
                rows,
                (KahnState { degrees: counters(in_degree@), queue: queue@, result: result@ }),
                (n - result.len()) as nat,
            ) == target,
            in_degree.len() == n,
            done.len() == n,
            forall|v: int|
                0 <= v < n ==> (#[trigger] in_degree[v]) == pending_in(adj@, done, v, n as int),
            forall|v: int| 0 <= v < n ==> (#[trigger] done[v] <==> listed(result@, v)),
            count_true(done) == result.len(),
            queue@.no_duplicates(),
            forall|i: int| 0 <= i < queue.len() ==> (#[trigger] queue[i]) < n && !done[queue[i] as int],
            forall|v: int|
                0 <= v < n ==> ((#[trigger] in_degree[v]) == 0 <==> (listed(queue@, v)
                    || done[v])),
            is_arc_order(adj@, result@),
        decreases n - result.len(),
    {
        let ghost queue_before = queue@;
        let ghost state_before = KahnState {
            degrees: counters(in_degree@),
            queue: queue@,
            result: result@,
        };
        let node = queue.pop().unwrap();
        let ghost done_before = done;
        proof {
            assert(queue_before[queue_before.len() - 1] == node);
            assert(listed(queue_before, node as int));
            assert(!listed(queue@, node as int)) by {
                if listed(queue@, node as int) {
                    let i = choose|i: int| 0 <= i < queue@.len() && queue@[i] == node;
                    assert(queue_before[i] == node);
                }
            }
            assert(in_degree[node as int] == 0);
            lemma_count_true_bound(done);
            if count_true(done) == n {
                lemma_count_true_full(done, node as int);
            }
            assert forall|p: int| 0 <= p < result.len() implies !has_arc(
                adj@,
                node as int,
                #[trigger] result[p] as int,
            ) by {
                let w = result[p];
                assert(listed(result@, w as int));
                assert(done[w as int]);
                assert(in_degree[w as int] == 0);
                lemma_pending_zero(adj@, done, node as int, w as int, n as int);
            }
            assert(!has_arc(adj@, node as int, node as int)) by {
                lemma_pending_zero(adj@, done, node as int, node as int, n as int);
            }
            done = done.update(node as int, true);
            lemma_count_true_set(done_before, node as int);
            assert forall|v: int| 0 <= v < n implies pending_in(adj@, done_before, v, n as int)
                == pending_in(adj@, done, v, n as int) + occurrences(adj@[node as int]@, v) by {
                lemma_pending_mark(adj@, done_before, node as int, v, n as int);
            }
        }
        let ghost result_before = result@;
        result.push(node);
        proof {
            assert(result@ =~= result_before.push(node));
            assert(result@[result.len() - 1] == node);
            assert forall|v: int| 0 <= v < n implies (#[trigger] done[v] <==> listed(result@, v)) by {
                if listed(result@, v) {
                    let i = choose|i: int| 0 <= i < result@.len() && result@[i] == v;
                    if i < result_before.len() {
                        assert(result_before[i] == v);
                        assert(listed(result_before, v));
                    }
                }
                if done[v] && v != node {
                    assert(done_before[v]);
                    let i = choose|i: int| 0 <= i < result_before.len() && result_before[i] == v;
                    assert(result@[i] == v);
                }
            }
            assert(!listed(result_before, node as int));
            assert(result@.no_duplicates());
            assert(is_arc_order(adj@, result@));
            assert forall|v: int| 0 <= v < n implies ((#[trigger] in_degree[v]) == 0 <==> (
            listed(queue@, v) || done[v])) by {
                if listed(queue_before, v) && v != node {
                    let i = choose|i: int| 0 <= i < queue_before.len() && queue_before[i] == v;
                    assert(queue@[i] == v);
                }
                if listed(queue@, v) {
                    let i = choose|i: int| 0 <= i < queue@.len() && queue@[i] == v;
                    assert(queue_before[i] == v);
                }
            }
        }
        let row = &adj[node];
        let ghost popped = KahnState {
            degrees: counters(in_degree@),
            queue: queue@,
            result: result@,
        };
        proof {
            assert(queue@ =~= queue_before.drop_last());
            assert(rows[node as int] == row@);
        }
        let mut k: usize = 0;
        while k < row.len()
            invariant
                k <= row.len(),
                node < n,
                n == adj.len(),
                valid_adj(adj@),
                in_degree.len() == n,
                done.len() == n,
                *row == adj@[node as int],
                release(popped, row@, k as int) == (KahnState {
                    degrees: counters(in_degree@),
                    queue: queue@,
                    result: result@,
                }),
                forall|v: int|
                    0 <= v < n ==> (#[trigger] in_degree[v]) + occurrences(row@.take(k as int), v)
                        == pending_in(adj@, done, v, n as int) + occurrences(row@, v),
                queue@.no_duplicates(),
                forall|i: int|
                    0 <= i < queue.len() ==> (#[trigger] queue[i]) < n && !done[queue[i] as int],
                forall|v: int|
                    0 <= v < n ==> ((#[trigger] in_degree[v]) == 0 <==> (listed(queue@, v) || done[v])),
            decreases row.len() - k,
        {
            let child = row[k];
            assert(child < n);
            proof {
                lemma_occurrences_prefix(row@, k + 1, child as int);
                assert forall|v: int| 0 <= v < n implies occurrences(row@.take(k + 1), v)
                    == occurrences(row@.take(k as int), v) + if child == v {
                    1nat
                } else {
                    0nat
                } by {
                    lemma_occurrences_step(row@, k as int, v);
                }
                assert(in_degree[child as int] >= 1);
            }
            let lowered = in_degree[child] - 1;
            let ghost queue_mid = queue@;
            let ghost degrees_mid = counters(in_degree@);
            in_degree.set(child, lowered);
            proof {
                assert(counters(in_degree@) =~= degrees_mid.update(child as int, lowered as nat));
            }
            if lowered == 0 {
                queue.push(child);
                proof {
                    assert(queue@ =~= queue_mid.push(child));
                    assert(queue@[queue.len() - 1] == child);
                    assert(!listed(queue_mid, child as int));
                    assert forall|v: int| 0 <= v < n implies ((#[trigger] in_degree[v]) == 0 <==> (
                    listed(queue@, v) || done[v])) by {
                        if listed(queue_mid, v) {
                            let i = choose|i: int| 0 <= i < queue_mid.len() && queue_mid[i] == v;
                            assert(queue@[i] == v);
                        }
                        if listed(queue@, v) && v != child {
                            let i = choose|i: int| 0 <= i < queue@.len() && queue@[i] == v;
                            assert(queue_mid[i] == v);
                        }
                    }
                }
            }
            k += 1;
        }
        assert(row@.take(row.len() as int) =~= row@);
        proof {
            assert(kahn_step(rows, state_before) == (KahnState {
                degrees: counters(in_degree@),
                queue: queue@,
                result: result@,
            }));
        }
    }
    proof {
        lemma_count_true_bound(done);
        if result.len() == n {
            assert forall|v: int| 0 <= v < n implies listed(result@, v) by {
                lemma_count_true_full(done, v);
            }
        } else {
            assert forall|v: int| 0 <= v < n && !listed(result@, v) implies exists|u: int|
                0 <= u < n && !listed(result@, u) && #[trigger] has_arc(adj@, u, v) by {
                assert(!done[v]);
                assert(!listed(queue@, v));
                assert(in_degree[v] != 0);
                let u = lemma_pending_positive(adj@, done, v, n as int);
                assert(!listed(result@, u));
                assert(has_arc(adj@, u, v));
            }
        }
    }
    result
}

} // verus!
