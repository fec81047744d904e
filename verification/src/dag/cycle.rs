//! Depth-first search for a cycle, with an explicit stack.

use vstd::prelude::*;
use super::adjacency::{
    count_true, has_arc, lemma_count_true_bound, lemma_count_true_empty, lemma_count_true_full,
    lemma_count_true_set, valid_adj,
};
use super::order::listed;

verus! {

/// One entry of the search stack: a node still to enter, or the mark that
/// closes the node entered last.
#[derive(Clone, Copy)]
pub enum Step {
    Pre(usize),
    Post,
}

/// `c` is a closed walk: each node has an arc to the next, and the last one
/// has an arc to the first.
pub open spec fn is_arc_cycle(adj: Seq<Vec<usize>>, c: Seq<usize>) -> bool {
    &&& c.len() > 0
    &&& forall|i: int| 0 <= i < c.len() ==> (#[trigger] c[i]) < adj.len()
    &&& forall|i: int| 0 <= i < c.len() - 1 ==> has_arc(adj, #[trigger] c[i] as int, c[i + 1] as int)
    &&& has_arc(adj, c[c.len() - 1] as int, c[0] as int)
}

/// `rank` is a certificate that the graph has no cycle: it falls strictly
/// along every arc and stays below the number of nodes.
pub open spec fn is_ranking(adj: Seq<Vec<usize>>, rank: Seq<nat>) -> bool {
    &&& rank.len() == adj.len()
    &&& forall|v: int| 0 <= v < adj.len() ==> (#[trigger] rank[v]) < adj.len()
    &&& forall|u: int, v: int|
        0 <= u < adj.len() && 0 <= v < adj.len() && #[trigger] has_arc(adj, u, v) ==> rank[v]
            < rank[u]
}

/// The last position of `x` in `path`, if it occurs.
fn last_position(path: &Vec<usize>, x: usize) -> (r: Option<usize>)
    ensures
        match r {
            Some(i) => i < path.len() && path[i as int] == x,
            None => !listed(path@, x as int),
        },
{
    let mut i = path.len();
    while i > 0
        invariant
            i <= path.len(),
            forall|j: int| i <= j < path.len() ==> path[j] != x,
        decreases i,
    {
        i -= 1;
        if path[i] == x {
            return Some(i);
        }
    }
    None
}

/// The part of `path` from `start` on.
fn tail_from(path: &Vec<usize>, start: usize) -> (r: Vec<usize>)
    requires
        start <= path.len(),
    ensures
        r@ == path@.subrange(start as int, path.len() as int),
{
    let mut out: Vec<usize> = Vec::new();
    let mut i = start;
    while i < path.len()
        invariant
            start <= i <= path.len(),
            out@ == path@.subrange(start as int, i as int),
        decreases path.len() - i,
    {
        out.push(path[i]);
        i += 1;
    }
    out
}

fn all_false(n: usize) -> (r: Vec<bool>)
    ensures
        r.len() == n,
        forall|i: int| 0 <= i < n ==> !(#[trigger] r[i]),
{
    let mut out: Vec<bool> = Vec::new();
    let mut i: usize = 0;
    while i < n
        invariant
            i <= n,
            out.len() == i,
            forall|j: int| 0 <= j < i ==> !(#[trigger] out[j]),
        decreases n - i,
    {
        out.push(false);
        i += 1;
    }
    out
}

/// The shape of the search stack while the nodes of `path` are open.
/// `owner[p]` is the level of the path node that pushed entry `p` (-1 for
/// the root's own entry), and `post_at[i]` is where the closing mark of
/// level `i` sits.
pub open spec fn stack_shape(
    adj: Seq<Vec<usize>>,
    stack: Seq<Step>,
    owner: Seq<int>,
    post_at: Seq<int>,
    path: Seq<usize>,
) -> bool {
    &&& owner.len() == stack.len()
    &&& post_at.len() == path.len()
    &&& forall|p: int| 0 <= p < stack.len() ==> -1 <= (#[trigger] owner[p]) < path.len()
    &&& (path.len() >= 1 ==> forall|p: int| 0 <= p < stack.len() ==> (#[trigger] owner[p]) >= 0)
    &&& forall|p: int, q: int| 0 <= p < q < stack.len() ==> (#[trigger] owner[p]) <= (#[trigger] owner[q])
    &&& forall|p: int, q: int|
        0 <= q < p < stack.len() && (#[trigger] stack[p]) is Post ==> (#[trigger] owner[q]) < owner[p]
    &&& forall|i: int|
        0 <= i < path.len() ==> 0 <= (#[trigger] post_at[i]) < stack.len() && stack[post_at[i]] is Post
            && owner[post_at[i]] == i
    &&& (stack.len() > 0 ==> owner[stack.len() - 1] == path.len() - 1)
    &&& forall|p: int|
        0 <= p < stack.len() ==> match #[trigger] stack[p] {
            Step::Pre(c) => c < adj.len() && (owner[p] >= 0 ==> has_arc(
                adj,
                path[owner[p]] as int,
                c as int,
            )),
            Step::Post => true,
        }
}

/// No node occurs twice on `path`.
#[verifier::opaque]
pub open spec fn distinct(path: Seq<usize>) -> bool {
    path.no_duplicates()
}

proof fn lemma_distinct_empty()
    ensures
        distinct(Seq::<usize>::empty()),
{
    reveal(distinct);
}

proof fn lemma_distinct_push(path: Seq<usize>, node: usize)
    requires
        distinct(path),
        !listed(path, node as int),
    ensures
        distinct(path.push(node)),
{
    reveal(distinct);
    let out = path.push(node);
    assert forall|a: int, b: int| 0 <= a < out.len() && 0 <= b < out.len() && a != b implies out[a]
        != out[b] by {
        if a == path.len() {
            assert(path[b] != node);
        } else if b == path.len() {
            assert(path[a] != node);
        }
    }
}

proof fn lemma_distinct_drop_last(path: Seq<usize>)
    requires
        distinct(path),
        path.len() > 0,
    ensures
        distinct(path.drop_last()),
{
    reveal(distinct);
    let out = path.drop_last();
    assert forall|a: int, b: int| 0 <= a < out.len() && 0 <= b < out.len() && a != b implies out[a]
        != out[b] by {
        assert(out[a] == path[a] && out[b] == path[b]);
    }
}

proof fn lemma_distinct_tail(path: Seq<usize>, start: int)
    requires
        distinct(path),
        0 <= start <= path.len(),
    ensures
        path.subrange(start, path.len() as int).no_duplicates(),
{
    reveal(distinct);
    let out = path.subrange(start, path.len() as int);
    assert forall|a: int, b: int| 0 <= a < out.len() && 0 <= b < out.len() && a != b implies out[a]
        != out[b] by {
        assert(out[a] == path[start + a] && out[b] == path[start + b]);
    }
}

/// `path` is a walk along arcs.
pub open spec fn is_walk(adj: Seq<Vec<usize>>, path: Seq<usize>) -> bool {
    &&& forall|i: int| 0 <= i < path.len() ==> (#[trigger] path[i]) < adj.len()
    &&& forall|i: int| 0 <= i < path.len() - 1 ==> has_arc(adj, #[trigger] path[i] as int, path[i + 1] as int)
}

/// Entry `p` of the stack asks to enter node `c` on behalf of level `i`.
pub open spec fn pending_at(stack: Seq<Step>, owner: Seq<int>, p: int, c: int, i: int) -> bool {
    0 <= p < stack.len() && stack[p] == Step::Pre(c as usize) && owner[p] == i
}

/// Every successor of the path node at level `i` has been entered or is
/// waiting on the stack for that level.
pub open spec fn level_covered(
    adj: Seq<Vec<usize>>,
    stack: Seq<Step>,
    owner: Seq<int>,
    path: Seq<usize>,
    seen: Seq<bool>,
    i: int,
) -> bool {
    forall|c: int|
        0 <= c < adj.len() && #[trigger] has_arc(adj, path[i] as int, c) ==> seen[c] || exists|p: int|
            pending_at(stack, owner, p, c, i)
}

/// No arc leads from the path node at level `i` to itself or to a node
/// below it on the path.
pub open spec fn level_forward(adj: Seq<Vec<usize>>, path: Seq<usize>, i: int) -> bool {
    forall|j: int| 0 <= j <= i ==> !has_arc(adj, path[i] as int, #[trigger] path[j] as int)
}

/// The nodes closed so far are closed under arcs, and `rank` falls along
/// every arc between them.
pub open spec fn closed_ranked(adj: Seq<Vec<usize>>, visited: Seq<bool>, rank: Seq<nat>, finished: nat) -> bool {
    &&& visited.len() == adj.len()
    &&& rank.len() == adj.len()
    &&& finished == count_true(visited)
    &&& forall|v: int| 0 <= v < adj.len() && #[trigger] visited[v] ==> rank[v] < finished
    &&& forall|u: int, v: int|
        0 <= u < adj.len() && 0 <= v < adj.len() && visited[u] && #[trigger] has_arc(adj, u, v)
            ==> visited[v] && rank[v] < rank[u]
}

/// Searches the graph depth-first from every node and returns the first
/// cycle met, which passes no node twice, or a ranking that certifies that
/// there is none.
#[verifier::rlimit(60)]
pub fn search_cycle(adj: &Vec<Vec<usize>>) -> (r: (Option<Vec<usize>>, Ghost<Seq<nat>>))
    requires
        valid_adj(adj@),
    ensures
        match r.0 {
            Some(c) => is_arc_cycle(adj@, c@) && c@.no_duplicates(),
            None => is_ranking(adj@, r.1@),
        },
{
    let n = adj.len();
    let mut visited = all_false(n);
    let mut seen = all_false(n);
    let ghost mut rank: Seq<nat> = Seq::new(n as nat, |i: int| 0nat);
    let ghost mut finished: nat = 0;
    proof {
        lemma_count_true_empty(visited@);
    }
    let mut root: usize = 0;
    while root < n
        invariant
            root <= n,
            n == adj.len(),
            valid_adj(adj@),
            seen.len() == n,
            closed_ranked(adj@, visited@, rank, finished),
            forall|v: int| 0 <= v < root ==> #[trigger] visited[v],
        decreases n - root,
    {
        if visited[root] {
            root += 1;
            continue;
        }
        seen = all_false(n);
        let mut stack: Vec<Step> = Vec::new();
        stack.push(Step::Pre(root));
        let mut path: Vec<usize> = Vec::new();
        let ghost mut owner: Seq<int> = seq![-1int];
        let ghost mut post_at: Seq<int> = Seq::empty();
        proof {
            lemma_count_true_empty(seen@);
            lemma_distinct_empty();
        }
        while stack.len() > 0
            invariant
                root < n,
                n == adj.len(),
                valid_adj(adj@),
                seen.len() == n,
                closed_ranked(adj@, visited@, rank, finished),
                forall|v: int| 0 <= v < root ==> #[trigger] visited[v],
                stack_shape(adj@, stack@, owner, post_at, path@),
                is_walk(adj@, path@),
                distinct(path@),
                path.len() == 0 && stack.len() > 0 ==> stack.len() == 1 && stack[0] == Step::Pre(root)
                    && !seen[root as int],
                seen[root as int] || stack.len() > 0,
                path.len() > 0 ==> path@[0] == root,
                forall|i: int| 0 <= i < path.len() ==> seen[#[trigger] path[i] as int],
                forall|v: int|
                    0 <= v < n && #[trigger] seen[v] ==> visited[v] || listed(path@, v),
                forall|i: int|
                    0 <= i < path.len() ==> #[trigger] level_covered(
                        adj@,
                        stack@,
                        owner,
                        path@,
                        seen@,
                        i,
                    ),
                forall|i: int| 0 <= i < path.len() ==> #[trigger] level_forward(adj@, path@, i),
            decreases n - count_true(seen@), stack.len(),
        {
            let ghost stack0 = stack@;
            let ghost owner0 = owner;
            let ghost path0 = path@;
            let ghost seen0 = seen@;
            let ghost top = stack.len() - 1;
            let step = stack.pop().unwrap();
            proof {
                owner = owner.drop_last();
                lemma_count_true_bound(seen@);
            }
            match step {
                Step::Pre(current) => {
                    if seen[current] {
                        proof {
                            assert(path.len() >= 1);
                            let s = post_at[path.len() - 1];
                            assert(stack0[s] is Post);
                            assert(s < top);
                            assert forall|i: int| 0 <= i < path.len() implies #[trigger] level_covered(
                                adj@,
                                stack@,
                                owner,
                                path@,
                                seen@,
                                i,
                            ) by {
                                assert(level_covered(adj@, stack0, owner0, path0, seen0, i));
                                assert forall|c: int|
                                    0 <= c < adj@.len() && #[trigger] has_arc(
                                        adj@,
                                        path@[i] as int,
                                        c,
                                    ) implies seen@[c] || exists|p: int|
                                    pending_at(stack@, owner, p, c, i) by {
                                    if !seen@[c] {
                                        let p = choose|p: int| pending_at(stack0, owner0, p, c, i);
                                        assert(p != top);
                                        assert(pending_at(stack@, owner, p, c, i));
                                    }
                                }
                            }
                        }
                        continue;
                    }
                    let ghost level = path.len() as int;
                    proof {
                        assert(!listed(path@, current as int)) by {
                            if listed(path@, current as int) {
                                let j = choose|j: int| 0 <= j < path@.len() && path@[j] == current;
                                assert(seen[path@[j] as int]);
                            }
                        }
                        if count_true(seen@) == n {
                            lemma_count_true_full(seen@, current as int);
                        }
                        lemma_count_true_set(seen@, current as int);
                    }
                    path.push(current);
                    seen.set(current, true);
                    stack.push(Step::Post);
                    proof {
                        owner = owner.push(level);
                        post_at = post_at.push(stack.len() - 1);
                        assert(path@ =~= path0.push(current));
                        lemma_distinct_push(path0, current);
                        assert forall|i: int| 0 <= i < level implies #[trigger] level_covered(
                            adj@,
                            stack@,
                            owner,
                            path@,
                            seen@,
                            i,
                        ) by {
                            assert(level_covered(adj@, stack0, owner0, path0, seen0, i));
                            assert forall|c: int|
                                0 <= c < adj@.len() && #[trigger] has_arc(adj@, path@[i] as int, c) implies seen@[c]
                                || exists|p: int| pending_at(stack@, owner, p, c, i) by {
                                if !seen@[c] {
                                    assert(!seen0[c]);
                                    let p = choose|p: int| pending_at(stack0, owner0, p, c, i);
                                    assert(p != top) by {
                                        if p == top {
                                            assert(c == current);
                                        }
                                    }
                                    assert(pending_at(stack@, owner, p, c, i));
                                }
                            }
                        }
                        assert forall|i: int| 0 <= i < level implies #[trigger] level_forward(
                            adj@,
                            path@,
                            i,
                        ) by {
                            assert(level_forward(adj@, path0, i));
                        }
                        assert(is_walk(adj@, path@)) by {
                            if level >= 1 {
                                assert(owner0[top] == level - 1);
                                assert(stack0[top] == Step::Pre(current));
                            }
                        }
                        assert forall|v: int| 0 <= v < n && #[trigger] seen[v] implies visited[v]
                            || listed(path@, v) by {
                            if v == current {
                                assert(path@[level] == v);
                            } else {
                                assert(seen0[v]);
                                if !visited[v] {
                                    let j = choose|j: int| 0 <= j < path0.len() && path0[j] == v;
                                    assert(path@[j] == v);
                                }
                            }
                        }
                    }
                    let row = &adj[current];
                    let ghost stack1 = stack@;
                    let ghost owner1 = owner;
                    let mut k: usize = 0;
                    while k < row.len()
                        invariant
                            k <= row.len(),
                            current < n,
                            n == adj.len(),
                            valid_adj(adj@),
                            *row == adj@[current as int],
                            seen.len() == n,
                            level + 1 == path.len(),
                            path@[level] == current,
                            path@[0] == root,
                            stack_shape(adj@, stack@, owner, post_at, path@),
                            is_walk(adj@, path@),
                            distinct(path@),
                            stack.len() >= stack1.len(),
                            stack1.len() >= 1,
                            stack@.subrange(0, stack1.len() as int) == stack1,
                            owner.subrange(0, stack1.len() as int) == owner1,
                            forall|p: int| stack1.len() <= p < stack.len() ==> owner[p] == level,
                            forall|i: int| 0 <= i < path.len() ==> seen[#[trigger] path[i] as int],
                            forall|j: int, m: int|
                                0 <= j < k && 0 <= m <= level ==> (#[trigger] row[j]) != (#[trigger] path[m]),
                            forall|j: int|
                                0 <= j < k ==> seen[#[trigger] row[j] as int] || exists|p: int|
                                    pending_at(stack@, owner, p, row[j] as int, level),
                        decreases row.len() - k,
                    {
                        let child = row[k];
                        assert(child < n);
                        let ghost stack2 = stack@;
                        let ghost owner2 = owner;
                        if !seen[child] {
                            stack.push(Step::Pre(child));
                            proof {
                                owner = owner.push(level);
                                assert(has_arc(adj@, current as int, child as int)) by {
                                    assert(adj@[current as int]@[k as int] == child);
                                }
                                assert(pending_at(stack@, owner, stack.len() - 1, child as int, level));
                                assert(stack@.subrange(0, stack1.len() as int) =~= stack2.subrange(
                                    0,
                                    stack1.len() as int,
                                ));
                                assert(owner.subrange(0, stack1.len() as int) =~= owner2.subrange(
                                    0,
                                    stack1.len() as int,
                                ));
                                assert forall|j: int| 0 <= j < k + 1 implies seen[#[trigger] row[j] as int]
                                    || exists|p: int|
                                    pending_at(stack@, owner, p, row[j] as int, level) by {
                                    if j < k && !seen[row[j] as int] {
                                        let p = choose|p: int|
                                            pending_at(stack2, owner2, p, row[j] as int, level);
                                        assert(pending_at(stack@, owner, p, row[j] as int, level));
                                    }
                                }
                                assert forall|m: int| 0 <= m <= level implies child != #[trigger] path[m] by {
                                    assert(seen[path[m] as int]);
                                }
                            }
                        } else {
                            match last_position(&path, child) {
                                Some(start) => {
                                    let cycle = tail_from(&path, start);
                                    proof {
                                        assert(has_arc(adj@, current as int, child as int)) by {
                                            assert(adj@[current as int]@[k as int] == child);
                                        }
                                        assert forall|i: int| 0 <= i < cycle@.len() - 1 implies has_arc(
                                            adj@,
                                            #[trigger] cycle@[i] as int,
                                            cycle@[i + 1] as int,
                                        ) by {
                                            assert(cycle@[i] == path@[start + i]);
                                            assert(cycle@[i + 1] == path@[start + i + 1]);
                                        }
                                        lemma_distinct_tail(path@, start as int);
                                        assert(cycle@[cycle@.len() - 1] == path@[level]);
                                        assert(cycle@[0] == path@[start as int]);
                                    }
                                    return (Some(cycle), Ghost(rank));
                                },
                                None => {
                                    proof {
                                        assert forall|m: int| 0 <= m <= level implies child != #[trigger] path[m] by {
                                            if child == path[m] {
                                                assert(listed(path@, child as int));
                                            }
                                        }
                                    }
                                },
                            }
                        }
                        k += 1;
                    }
                    proof {
                        assert(level_covered(adj@, stack@, owner, path@, seen@, level)) by {
                            assert forall|c: int|
                                0 <= c < adj@.len() && #[trigger] has_arc(adj@, path@[level] as int, c) implies seen@[c]
                                || exists|p: int| pending_at(stack@, owner, p, c, level) by {
                                let j = choose|j: int| 0 <= j < row@.len() && #[trigger] row@[j] == c;
                                assert(seen[row[j] as int] || exists|p: int|
                                    pending_at(stack@, owner, p, row[j] as int, level));
                            }
                        }
                        assert(level_forward(adj@, path@, level)) by {
                            assert forall|m: int| 0 <= m <= level implies !has_arc(
                                adj@,
                                path@[level] as int,
                                #[trigger] path@[m] as int,
                            ) by {
                                if has_arc(adj@, path@[level] as int, path@[m] as int) {
                                    let j = choose|j: int|
                                        0 <= j < row@.len() && #[trigger] row@[j] == path@[m] as int;
                                    assert(row[j] != path[m]);
                                }
                            }
                        }
                        assert forall|i: int| 0 <= i < level implies #[trigger] level_covered(
                            adj@,
                            stack@,
                            owner,
                            path@,
                            seen@,
                            i,
                        ) by {
                            assert(level_covered(adj@, stack1, owner1, path@, seen@, i));
                            assert forall|c: int|
                                0 <= c < adj@.len() && #[trigger] has_arc(adj@, path@[i] as int, c) implies seen@[c]
                                || exists|p: int| pending_at(stack@, owner, p, c, i) by {
                                if !seen@[c] {
                                    let p = choose|p: int| pending_at(stack1, owner1, p, c, i);
                                    assert(stack@.subrange(0, stack1.len() as int)[p] == stack@[p]);
                                    assert(owner.subrange(0, stack1.len() as int)[p] == owner[p]);
                                    assert(pending_at(stack@, owner, p, c, i));
                                }
                            }
                        }
                    }
                },
                Step::Post => {
                    let ghost level = path.len() - 1;
                    proof {
                        assert(stack0[top] is Post);
                        assert(owner0[top] == level);
                        assert(post_at[level] == top) by {
                            if post_at[level] != top {
                                assert(stack0[top] is Post);
                                assert(owner0[post_at[level]] < owner0[top]);
                            }
                        }
                    }
                    let v = path.pop().unwrap();
                    proof {
                        post_at = post_at.drop_last();
                        assert forall|c: int| 0 <= c < n && has_arc(adj@, v as int, c) implies visited[c] by {
                            assert(level_covered(adj@, stack0, owner0, path0, seen0, level));
                            if !seen0[c] {
                                let p = choose|p: int| pending_at(stack0, owner0, p, c, level);
                                assert(stack0[top] is Post);
                                if p < top {
                                    assert(owner0[p] < owner0[top]);
                                }
                            }
                            if !visited[c] {
                                assert(listed(path0, c));
                                let j = choose|j: int| 0 <= j < path0.len() && path0[j] == c;
                                assert(level_forward(adj@, path0, level));
                                assert(!has_arc(adj@, path0[level] as int, path0[j] as int));
                            }
                        }
                    }
                    if !visited[v] {
                        let ghost visited0 = visited@;
                        let ghost rank0 = rank;
                        visited.set(v, true);
                        proof {
                            lemma_count_true_set(visited0, v as int);
                            rank = rank.update(v as int, finished);
                            finished = finished + 1;
                            assert forall|u: int, w: int|
                                0 <= u < n && 0 <= w < n && visited[u] && #[trigger] has_arc(
                                    adj@,
                                    u,
                                    w,
                                ) implies visited[w] && rank[w] < rank[u] by {
                                if u == v {
                                    assert(visited0[w]);
                                    assert(w != v);
                                } else {
                                    assert(visited0[u]);
                                    assert(visited0[w]);
                                    assert(w != v);
                                }
                            }
                        }
                    }
                    proof {
                        assert(path@ =~= path0.drop_last());
                        lemma_distinct_drop_last(path0);
                        assert forall|x: int| 0 <= x < n && #[trigger] seen[x] implies visited[x]
                            || listed(path@, x) by {
                            if x != v && !visited[x] {
                                let j = choose|j: int| 0 <= j < path0.len() && path0[j] == x;
                                assert(path@[j] == x);
                            }
                        }
                        assert forall|i: int| 0 <= i < path.len() implies #[trigger] level_covered(
                            adj@,
                            stack@,
                            owner,
                            path@,
                            seen@,
                            i,
                        ) by {
                            assert(level_covered(adj@, stack0, owner0, path0, seen0, i));
                            assert forall|c: int|
                                0 <= c < adj@.len() && #[trigger] has_arc(adj@, path@[i] as int, c) implies seen@[c]
                                || exists|p: int| pending_at(stack@, owner, p, c, i) by {
                                if !seen@[c] {
                                    let p = choose|p: int| pending_at(stack0, owner0, p, c, i);
                                    assert(pending_at(stack@, owner, p, c, i));
                                }
                            }
                        }
                        assert forall|i: int| 0 <= i < path.len() implies #[trigger] level_forward(
                            adj@,
                            path@,
                            i,
                        ) by {
                            assert(level_forward(adj@, path0, i));
                        }
                        if stack.len() > 0 {
                            if level >= 1 {
                                let s = post_at[level - 1];
                                assert(owner0[s] == level - 1);
                            }
                        }
                    }
                },
            }
        }
        proof {
            if path.len() > 0 {
                assert(0 <= post_at[0] < stack.len());
            }
            assert(seen[root as int]);
            if !visited[root as int] {
                assert(listed(path@, root as int));
            }
        }
        root += 1;
    }
    proof {
        lemma_count_true_bound(visited@);
        assert forall|v: int| 0 <= v < n implies (#[trigger] rank[v]) < n by {
            assert(visited[v]);
        }
        assert forall|u: int, v: int| 0 <= u < n && 0 <= v < n && #[trigger] has_arc(adj@, u, v) implies rank[v]
            < rank[u] by {
            assert(visited[u]);
        }
    }
    (None, Ghost(rank))
}

} // verus!
