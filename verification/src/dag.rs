//! Directed graphs over copyable nodes: topological ordering and cycle
//! search.
//!
//! Nodes are kept in an arena in the order in which they were first named,
//! and arcs in adjacency lists over arena indices.

pub mod adjacency;
pub mod certificate;
pub mod cycle;
pub mod order;

use vstd::prelude::*;
use vstd::std_specs::cmp::PartialEqSpec;
use adjacency::{has_arc, valid_adj};
use certificate::{lemma_order_ranking, lemma_ranking_no_cycle, lemma_ranking_not_stuck};
use cycle::{is_arc_cycle, search_cycle};
use order::{covers_all, is_arc_order, kahn_order, listed, rows_of};

verus! {

/// The mathematical content of a graph: its nodes in the order in which
/// they were first named, and for each node the targets of its edges in the
/// order in which they were added.
pub struct GraphView<Node> {
    pub nodes: Seq<Node>,
    pub succ: Seq<Seq<Node>>,
}

impl<Node> GraphView<Node> {
    pub open spec fn empty() -> Self {
        GraphView { nodes: Seq::empty(), succ: Seq::empty() }
    }

    /// No node is listed twice, every node has its list of targets, and
    /// every target is a node.
    pub open spec fn wf(self) -> bool {
        &&& self.nodes.no_duplicates()
        &&& self.succ.len() == self.nodes.len()
        &&& forall|i: int, k: int|
            0 <= i < self.succ.len() && 0 <= k < self.succ[i].len() ==> self.nodes.contains(
                #[trigger] self.succ[i][k],
            )
    }

    /// There is an edge from `a` to `b`.
    pub open spec fn has_edge(self, a: Node, b: Node) -> bool {
        exists|i: int|
            0 <= i < self.nodes.len() && i < self.succ.len() && #[trigger] self.nodes[i] == a
                && self.succ[i].contains(b)
    }

    /// `c` is a non-empty closed walk: each node has an edge to the next and
    /// the last has an edge to the first.
    pub open spec fn is_cycle(self, c: Seq<Node>) -> bool {
        &&& c.len() > 0
        &&& forall|i: int| 0 <= i < c.len() - 1 ==> self.has_edge(#[trigger] c[i], c[i + 1])
        &&& self.has_edge(c[c.len() - 1], c[0])
    }

    pub open spec fn has_cycle(self) -> bool {
        exists|c: Seq<Node>| self.is_cycle(c)
    }

    /// `order` lists every node exactly once, and every edge leads from a
    /// node to one listed later.
    pub open spec fn is_topological_order(self, order: Seq<Node>) -> bool {
        &&& order.no_duplicates()
        &&& order.len() == self.nodes.len()
        &&& forall|p: int| 0 <= p < order.len() ==> self.nodes.contains(#[trigger] order[p])
        &&& forall|p: int, q: int|
            0 <= p < order.len() && 0 <= q < order.len() && self.has_edge(
                #[trigger] order[p],
                #[trigger] order[q],
            ) ==> p < q
    }

    /// The edges by the positions of the nodes: for each node, in order, the
    /// positions of the targets of its edges.
    pub open spec fn arcs(self) -> Seq<Seq<usize>> {
        self.succ.map_values(
            |s: Seq<Node>| s.map_values(|t: Node| self.nodes.index_of(t) as usize),
        )
    }

    /// The order in which Kahn's algorithm lists the nodes when it starts
    /// from the nodes without incoming edges, in the order in which they
    /// were first named, and always takes the node that became free last.
    /// On a graph with a cycle it lists only what no cycle holds back.
    pub open spec fn lifo_order(self) -> Seq<Node> {
        order::lifo_order(self.arcs()).map_values(|i: usize| self.nodes[i as int])
    }

    /// The graph with `n` as a node: unchanged if it is one already.
    pub open spec fn with_node(self, n: Node) -> Self {
        if self.nodes.contains(n) {
            self
        } else {
            GraphView { nodes: self.nodes.push(n), succ: self.succ.push(Seq::empty()) }
        }
    }

    /// The graph with one more edge from `from` to `to`; the two become
    /// nodes, `from` first, if they are not yet.
    pub open spec fn with_edge(self, from: Node, to: Node) -> Self {
        let g = self.with_node(from).with_node(to);
        let i = g.nodes.index_of(from);
        GraphView { nodes: g.nodes, succ: g.succ.update(i, g.succ[i].push(to)) }
    }
}

/// Adding a node keeps the graph well-formed and its edges as they are.
pub proof fn lemma_with_node<Node>(g: GraphView<Node>, n: Node)
    requires
        g.wf(),
    ensures
        g.with_node(n).wf(),
        forall|x: Node| #[trigger] g.with_node(n).nodes.contains(x) <==> g.nodes.contains(x) || x == n,
        forall|a: Node, b: Node| #[trigger] g.with_node(n).has_edge(a, b) <==> g.has_edge(a, b),
{
    let h = g.with_node(n);
    if !g.nodes.contains(n) {
        assert(h.nodes[g.nodes.len() as int] == n);
        assert forall|i: int, k: int|
            0 <= i < h.succ.len() && 0 <= k < h.succ[i].len() implies h.nodes.contains(
            #[trigger] h.succ[i][k],
        ) by {
            let t = g.succ[i][k];
            assert(g.nodes.contains(t));
            let j = choose|j: int| 0 <= j < g.nodes.len() && g.nodes[j] == t;
            assert(h.nodes[j] == t);
        }
        assert forall|x: Node| #[trigger] h.nodes.contains(x) <==> g.nodes.contains(x) || x == n by {
            if g.nodes.contains(x) {
                let j = choose|j: int| 0 <= j < g.nodes.len() && g.nodes[j] == x;
                assert(h.nodes[j] == x);
            }
            if h.nodes.contains(x) && x != n {
                let j = choose|j: int| 0 <= j < h.nodes.len() && h.nodes[j] == x;
                assert(g.nodes[j] == x);
            }
        }
        assert forall|a: Node, b: Node| #[trigger] h.has_edge(a, b) <==> g.has_edge(a, b) by {
            if h.has_edge(a, b) {
                let i = choose|i: int|
                    0 <= i < h.nodes.len() && i < h.succ.len() && #[trigger] h.nodes[i] == a
                        && h.succ[i].contains(b);
                assert(i < g.nodes.len());
                assert(g.nodes[i] == a && g.succ[i].contains(b));
            }
            if g.has_edge(a, b) {
                let i = choose|i: int|
                    0 <= i < g.nodes.len() && i < g.succ.len() && #[trigger] g.nodes[i] == a
                        && g.succ[i].contains(b);
                assert(h.nodes[i] == a && h.succ[i].contains(b));
            }
        }
    }
}

/// Adding an edge keeps the graph well-formed and adds that edge and no
/// other.
pub proof fn lemma_with_edge<Node>(g: GraphView<Node>, from: Node, to: Node)
    requires
        g.wf(),
    ensures
        g.with_edge(from, to).wf(),
        forall|x: Node| #[trigger]
            g.with_edge(from, to).nodes.contains(x) <==> g.nodes.contains(x) || x == from || x == to,
        forall|a: Node, b: Node| #[trigger]
            g.with_edge(from, to).has_edge(a, b) <==> g.has_edge(a, b) || (a == from && b == to),
{
    let g1 = g.with_node(from);
    lemma_with_node(g, from);
    let g2 = g1.with_node(to);
    lemma_with_node(g1, to);
    let h = g.with_edge(from, to);
    assert(g2.nodes.contains(from));
    let i = g2.nodes.index_of(from);
    assert(0 <= i < g2.nodes.len() && g2.nodes[i] == from);
    assert(h.nodes == g2.nodes);
    assert(g2.nodes.contains(to));
    assert forall|m: int, k: int|
        0 <= m < h.succ.len() && 0 <= k < h.succ[m].len() implies h.nodes.contains(
        #[trigger] h.succ[m][k],
    ) by {
        if m == i && k == g2.succ[i].len() {
        } else {
            assert(h.succ[m][k] == g2.succ[m][k]);
        }
    }
    assert forall|a: Node, b: Node| #[trigger]
        h.has_edge(a, b) <==> g.has_edge(a, b) || (a == from && b == to) by {
        if h.has_edge(a, b) {
            let m = choose|m: int|
                0 <= m < h.nodes.len() && m < h.succ.len() && #[trigger] h.nodes[m] == a
                    && h.succ[m].contains(b);
            let k = choose|k: int| 0 <= k < h.succ[m].len() && h.succ[m][k] == b;
            if m == i && k == g2.succ[i].len() {
            } else {
                assert(g2.succ[m][k] == b);
                assert(g2.nodes[m] == a && g2.succ[m].contains(b));
                assert(g2.has_edge(a, b));
            }
        }
        if g.has_edge(a, b) {
            assert(g2.has_edge(a, b));
            let m = choose|m: int|
                0 <= m < g2.nodes.len() && m < g2.succ.len() && #[trigger] g2.nodes[m] == a
                    && g2.succ[m].contains(b);
            let k = choose|k: int| 0 <= k < g2.succ[m].len() && g2.succ[m][k] == b;
            assert(h.succ[m][k] == b);
            assert(h.nodes[m] == a && h.succ[m].contains(b));
        }
        if a == from && b == to {
            assert(h.succ[i][g2.succ[i].len() as int] == to);
            assert(h.nodes[i] == a && h.succ[i].contains(b));
        }
    }
}

/// A graph with a topological order has no cycle: along a cycle the
/// position in the order would rise at every step and yet return.
pub proof fn lemma_topological_order_excludes_cycle<Node>(
    g: GraphView<Node>,
    order: Seq<Node>,
    c: Seq<Node>,
)
    requires
        g.is_topological_order(order),
        g.nodes.no_duplicates(),
        g.succ.len() == g.nodes.len(),
    ensures
        !g.is_cycle(c),
{
    if g.is_cycle(c) {
        lemma_topological_order_lists_nodes(g, order);
        lemma_cycle_rises(g, order, c, c.len() - 1);
        let a = c[c.len() - 1];
        let b = c[0];
        assert(g.has_edge(a, b));
        assert(order.contains(a));
        assert(order.contains(b));
        let p = order.index_of(a);
        let q = order.index_of(b);
        assert(g.has_edge(order[p], order[q]));
    }
}

/// Under a topological order every node of the graph is listed.
pub proof fn lemma_topological_order_lists_nodes<Node>(g: GraphView<Node>, order: Seq<Node>)
    requires
        g.is_topological_order(order),
        g.nodes.no_duplicates(),
    ensures
        forall|x: Node| g.nodes.contains(x) ==> #[trigger] order.contains(x),
{
    order.unique_seq_to_set();
    g.nodes.unique_seq_to_set();
    let so = order.to_set();
    let sn = g.nodes.to_set();
    assert(so.subset_of(sn)) by {
        assert forall|x: Node| so.contains(x) implies sn.contains(x) by {
            let p = choose|p: int| 0 <= p < order.len() && order[p] == x;
            assert(g.nodes.contains(order[p]));
        }
    }
    vstd::seq_lib::seq_to_set_is_finite(order);
    vstd::seq_lib::seq_to_set_is_finite(g.nodes);
    vstd::set_lib::lemma_subset_equality(so, sn);
    assert forall|x: Node| g.nodes.contains(x) implies #[trigger] order.contains(x) by {
        assert(sn.contains(x));
        assert(so.contains(x));
    }
}

proof fn lemma_cycle_rises<Node>(g: GraphView<Node>, order: Seq<Node>, c: Seq<Node>, i: int)
    requires
        g.is_topological_order(order),
        g.is_cycle(c),
        forall|x: Node| g.nodes.contains(x) ==> #[trigger] order.contains(x),
        0 <= i < c.len(),
    ensures
        c.len() > 1 || i == 0,
        order.contains(c[i]),
        order.contains(c[0]),
        order.index_of(c[0]) + i <= order.index_of(c[i]),
    decreases i,
{
    let next = if c.len() == 1 { c[0] } else { c[1] };
    assert(g.has_edge(c[0], next)) by {
        if c.len() > 1 {
            assert(g.has_edge(c[0int], c[0int + 1]));
        }
    }
    let w = choose|w: int|
        0 <= w < g.nodes.len() && w < g.succ.len() && #[trigger] g.nodes[w] == c[0] && g.succ[w].contains(
            next,
        );
    assert(g.nodes.contains(c[0]));
    if i > 0 {
        lemma_cycle_rises(g, order, c, i - 1);
        let a = c[i - 1];
        let b = c[i];
        assert(g.has_edge(a, b)) by {
            assert(g.has_edge(c[i - 1], c[(i - 1) + 1]));
        }
        let nextb = if i < c.len() - 1 {
            c[i + 1]
        } else {
            c[0]
        };
        assert(g.has_edge(b, nextb));
        let v = choose|v: int|
            0 <= v < g.nodes.len() && v < g.succ.len() && #[trigger] g.nodes[v] == b && g.succ[v].contains(
                nextb,
            );
        assert(g.nodes.contains(b));
        assert(order.contains(b));
        let p = order.index_of(a);
        let q = order.index_of(b);
        assert(order[p] == a);
        assert(order[q] == b);
        assert(g.has_edge(order[p], order[q]));
    }
}

/// `==` on `Node` decides equality of values.
pub open spec fn eq_is_identity<Node: PartialEq>() -> bool {
    &&& Node::obeys_eq_spec()
    &&& forall|a: Node, b: Node| #[trigger] a.eq_spec(&b) <==> a == b
}

/// A directed graph that is meant to be free of cycles; `topo_sort` tells
/// whether it is.
#[derive(Debug)]
pub struct DirectedAcyclicGraph<Node> {
    nodes: Vec<Node>,
    edges: Vec<Vec<usize>>,
}

impl<Node> View for DirectedAcyclicGraph<Node> {
    type V = GraphView<Node>;

    closed spec fn view(&self) -> GraphView<Node> {
        GraphView {
            nodes: self.nodes@,
            succ: Seq::new(
                self.nodes@.len(),
                |i: int| self.edges@[i]@.map_values(|j: usize| self.nodes@[j as int]),
            ),
        }
    }
}

impl<Node: Copy + PartialEq> DirectedAcyclicGraph<Node> {
    /// The representation invariant: distinct nodes, one adjacency list per
    /// node, every target the index of a node.
    pub closed spec fn wf(&self) -> bool {
        &&& self.nodes@.no_duplicates()
        &&& self.edges.len() == self.nodes.len()
        &&& valid_adj(self.edges@)
    }

    /// A well-formed graph has a well-formed view.
    pub proof fn lemma_view_wf(&self)
        requires
            self.wf(),
        ensures
            self@.wf(),
    {
        assert forall|i: int, k: int|
            0 <= i < self@.succ.len() && 0 <= k < self@.succ[i].len() implies self@.nodes.contains(
            #[trigger] self@.succ[i][k],
        ) by {
            let j = self.edges@[i]@[k];
            assert(j < self.nodes.len());
            assert(self@.nodes[j as int] == self@.succ[i][k]);
        }
    }

    /// The adjacency lists are the edges of the view by position.
    proof fn lemma_rows(&self)
        requires
            self.wf(),
        ensures
            rows_of(self.edges@) == self@.arcs(),
    {
        let rows = rows_of(self.edges@);
        let arcs = self@.arcs();
        assert(rows.len() == arcs.len());
        assert forall|i: int| 0 <= i < rows.len() implies rows[i] == arcs[i] by {
            assert(rows[i].len() == arcs[i].len());
            assert forall|k: int| 0 <= k < rows[i].len() implies rows[i][k] == arcs[i][k] by {
                let j = self.edges@[i]@[k];
                assert(j < self.nodes.len());
                let t = self.nodes@[j as int];
                assert(self@.succ[i][k] == t);
                assert(self.nodes@.contains(t));
                assert(self.nodes@[self.nodes@.index_of(t)] == t);
            }
            assert(rows[i] =~= arcs[i]);
        }
        assert(rows =~= arcs);
    }

    proof fn lemma_arc_edge(&self, u: int, v: int)
        requires
            self.wf(),
            0 <= u < self.nodes.len(),
            0 <= v < self.nodes.len(),
        ensures
            has_arc(self.edges@, u, v) <==> self@.has_edge(self.nodes@[u], self.nodes@[v]),
    {
        let g = self@;
        if has_arc(self.edges@, u, v) {
            let k = choose|k: int| 0 <= k < self.edges@[u]@.len() && #[trigger] self.edges@[u]@[k] == v;
            assert(g.succ[u][k] == self.nodes@[v]);
            assert(g.nodes[u] == self.nodes@[u]);
        }
        if g.has_edge(self.nodes@[u], self.nodes@[v]) {
            let i = choose|i: int|
                0 <= i < g.nodes.len() && i < g.succ.len() && #[trigger] g.nodes[i] == self.nodes@[u]
                    && g.succ[i].contains(self.nodes@[v]);
            assert(i == u);
            let k = choose|k: int| 0 <= k < g.succ[u].len() && g.succ[u][k] == self.nodes@[v];
            let j = self.edges@[u]@[k];
            assert(j < self.nodes.len());
            assert(self.nodes@[j as int] == self.nodes@[v]);
            assert(j == v);
        }
    }

    /// The arena indices of a cycle of nodes form a cycle of arcs.
    proof fn lemma_cycle_indices(&self, c: Seq<Node>) -> (ci: Seq<usize>)
        requires
            self.wf(),
            self@.is_cycle(c),
        ensures
            is_arc_cycle(self.edges@, ci),
    {
        let g = self@;
        self.lemma_view_wf();
        let ci = Seq::new(c.len(), |i: int| self.nodes@.index_of(c[i]) as usize);
        assert forall|i: int| 0 <= i < c.len() implies self.nodes@.contains(#[trigger] c[i]) by {
            let next = if i < c.len() - 1 {
                c[i + 1]
            } else {
                c[0]
            };
            assert(g.has_edge(c[i], next));
        }
        assert forall|i: int| 0 <= i < c.len() implies 0 <= self.nodes@.index_of(c[i])
            < self.nodes.len() && self.nodes@[self.nodes@.index_of(c[i])] == c[i] by {
            assert(self.nodes@.contains(c[i]));
        }
        assert forall|i: int| 0 <= i < ci.len() - 1 implies has_arc(
            self.edges@,
            #[trigger] ci[i] as int,
            ci[i + 1] as int,
        ) by {
            assert(g.has_edge(c[i], c[i + 1]));
            self.lemma_arc_edge(ci[i] as int, ci[i + 1] as int);
        }
        assert(g.has_edge(c[c.len() - 1], c[0]));
        self.lemma_arc_edge(ci[ci.len() - 1] as int, ci[0] as int);
        ci
    }

    /// A graph that has a topological order has no cycle.
    proof fn lemma_order_excludes_cycle(&self, order: Seq<usize>)
        requires
            self.wf(),
            is_arc_order(self.edges@, order),
            covers_all(self.edges@, order),
            order.len() == self.nodes.len(),
        ensures
            !self@.has_cycle(),
    {
        if self@.has_cycle() {
            let c = choose|c: Seq<Node>| self@.is_cycle(c);
            let ci = self.lemma_cycle_indices(c);
            let rank = lemma_order_ranking(self.edges@, order);
            lemma_ranking_no_cycle(self.edges@, rank, ci);
        }
    }

    pub fn new() -> (g: Self)
        ensures
            g.wf(),
            g@ == GraphView::<Node>::empty(),
    {
        let g = DirectedAcyclicGraph { nodes: Vec::new(), edges: Vec::new() };
        assert(g@.succ =~= Seq::empty());
        g
    }

    /// The arena index of `node`, which becomes a node if it is none yet.
    fn intern(&mut self, node: Node) -> (i: usize)
        requires
            old(self).wf(),
            eq_is_identity::<Node>(),
        ensures
            final(self).wf(),
            final(self)@ == old(self)@.with_node(node),
            i < final(self).nodes.len(),
            final(self).nodes@[i as int] == node,
            final(self).nodes@.len() >= old(self).nodes@.len(),
            forall|j: int| 0 <= j < old(self).nodes@.len() ==> final(self).nodes@[j] == old(self).nodes@[j],
            final(self).edges@.len() >= old(self).edges@.len(),
            forall|j: int| 0 <= j < old(self).edges@.len() ==> final(self).edges@[j] == old(self).edges@[j],
    {
        let mut i: usize = 0;
        while i < self.nodes.len()
            invariant
                i <= self.nodes.len(),
                *self == *old(self),
                self.wf(),
                eq_is_identity::<Node>(),
                forall|j: int| 0 <= j < i ==> self.nodes@[j] != node,
            decreases self.nodes.len() - i,
        {
            if self.nodes[i] == node {
                assert(self.nodes@.contains(node));
                return i;
            }
            i += 1;
        }
        assert(!self.nodes@.contains(node));
        self.nodes.push(node);
        self.edges.push(Vec::new());
        proof {
            assert(self@.nodes =~= old(self)@.nodes.push(node));
            let before = old(self)@.succ;
            let after = self@.succ;
            assert(after.len() == before.len() + 1);
            assert forall|j: int| 0 <= j < before.len() implies after[j] == before[j] by {
                assert(self.edges@[j] == old(self).edges@[j]);
                assert forall|m: int| 0 <= m < before[j].len() implies after[j][m] == before[j][m] by {
                    assert(old(self).edges@[j]@[m] < old(self).nodes.len());
                }
                assert(after[j] =~= before[j]);
            }
            assert(after[before.len() as int] =~= Seq::<Node>::empty());
            assert(after =~= before.push(Seq::empty()));
        }
        i
    }

    /// Makes `node` a node of the graph, if it is none yet.
    pub fn add_node(&mut self, node: Node)
        requires
            old(self).wf(),
            eq_is_identity::<Node>(),
        ensures
            final(self).wf(),
            final(self)@ == old(self)@.with_node(node),
    {
        let _ = self.intern(node);
    }

    /// Adds an edge from `from` to `to`.
    pub fn add_edge(&mut self, from: Node, to: Node)
        requires
            old(self).wf(),
            eq_is_identity::<Node>(),
        ensures
            final(self).wf(),
            final(self)@ == old(self)@.with_edge(from, to),
    {
        let fi = self.intern(from);
        let ghost mid1 = *self;
        let ti = self.intern(to);
        let ghost mid = *self;
        let mut row: Vec<usize> = Vec::new();
        let r = &mut self.edges[fi];
        core::mem::swap(&mut row, r);
        row.push(ti);
        core::mem::swap(&mut row, r);
        proof {
            let g = mid@;
            assert(g == old(self)@.with_node(from).with_node(to));
            assert(g.nodes[fi as int] == from);
            assert(g.nodes.contains(from));
            assert(g.nodes.index_of(from) == fi as int);
            assert(self@.nodes == g.nodes);
            assert(self@.succ =~= g.succ.update(fi as int, g.succ[fi as int].push(to))) by {
                assert forall|j: int| 0 <= j < g.succ.len() implies self@.succ[j] =~= g.succ.update(
                    fi as int,
                    g.succ[fi as int].push(to),
                )[j] by {}
            }
        }
    }

    /// The nodes at the given arena indices.
    fn nodes_at(&self, indices: &Vec<usize>) -> (r: Vec<Node>)
        requires
            forall|i: int| 0 <= i < indices.len() ==> (#[trigger] indices[i]) < self.nodes.len(),
        ensures
            r.len() == indices.len(),
            forall|i: int| 0 <= i < r.len() ==> (#[trigger] r[i]) == self.nodes@[indices[i] as int],
    {
        let mut out: Vec<Node> = Vec::new();
        let mut i: usize = 0;
        while i < indices.len()
            invariant
                i <= indices.len(),
                out.len() == i,
                forall|j: int| 0 <= j < indices.len() ==> (#[trigger] indices[j]) < self.nodes.len(),
                forall|j: int| 0 <= j < i ==> (#[trigger] out[j]) == self.nodes@[indices[j] as int],
            decreases indices.len() - i,
        {
            out.push(self.nodes[indices[i]]);
            i += 1;
        }
        out
    }

    proof fn lemma_cycle_nodes(&self, ci: Seq<usize>, c: Seq<Node>)
        requires
            self.wf(),
            is_arc_cycle(self.edges@, ci),
            ci.no_duplicates(),
            c.len() == ci.len(),
            forall|i: int| 0 <= i < c.len() ==> (#[trigger] c[i]) == self.nodes@[ci[i] as int],
        ensures
            self@.is_cycle(c),
            c.no_duplicates(),
    {
        assert forall|a: int, b: int| 0 <= a < c.len() && 0 <= b < c.len() && a != b implies c[a]
            != c[b] by {
            assert(ci[a] != ci[b]);
        }
        assert forall|i: int| 0 <= i < c.len() - 1 implies self@.has_edge(#[trigger] c[i], c[i + 1]) by {
            assert(has_arc(self.edges@, ci[i] as int, ci[i + 1] as int));
            self.lemma_arc_edge(ci[i] as int, ci[i + 1] as int);
        }
        self.lemma_arc_edge(ci[ci.len() - 1] as int, ci[0] as int);
    }

    proof fn lemma_order_nodes(&self, oi: Seq<usize>, o: Seq<Node>)
        requires
            self.wf(),
            is_arc_order(self.edges@, oi),
            covers_all(self.edges@, oi),
            oi.len() == self.nodes.len(),
            o.len() == oi.len(),
            forall|i: int| 0 <= i < o.len() ==> (#[trigger] o[i]) == self.nodes@[oi[i] as int],
        ensures
            self@.is_topological_order(o),
    {
        assert forall|p: int, q: int| 0 <= p < o.len() && 0 <= q < o.len() && p != q implies o[p]
            != o[q] by {
            assert(oi[p] != oi[q]);
        }
        assert forall|p: int| 0 <= p < o.len() implies self@.nodes.contains(#[trigger] o[p]) by {
            assert(self@.nodes[oi[p] as int] == o[p]);
        }
        assert forall|p: int, q: int|
            0 <= p < o.len() && 0 <= q < o.len() && self@.has_edge(
                #[trigger] o[p],
                #[trigger] o[q],
            ) implies p < q by {
            self.lemma_arc_edge(oi[p] as int, oi[q] as int);
        }
    }

    /// Orders the nodes so that every edge leads from a node to one that
    /// comes later, taking at each step the node that became free last;
    /// or returns a cycle that passes no node twice, if there is a cycle,
    /// and only then.
    pub fn topo_sort(&self) -> (r: Result<Vec<Node>, Vec<Node>>)
        requires
            self.wf(),
        ensures
            match r {
                Ok(order) => self@.is_topological_order(order@) && order@ == self@.lifo_order(),
                Err(cycle) => self@.is_cycle(cycle@) && cycle@.no_duplicates(),
            },
            r is Ok <==> !self@.has_cycle(),
    {
        let order = kahn_order(&self.edges);
        if order.len() == self.nodes.len() {
            let out = self.nodes_at(&order);
            proof {
                self.lemma_order_nodes(order@, out@);
                self.lemma_order_excludes_cycle(order@);
                self.lemma_rows();
                assert(out@ =~= self@.lifo_order());
            }
            return Ok(out);
        }
        let found = search_cycle(&self.edges);
        match found.0 {
            Some(ci) => {
                let out = self.nodes_at(&ci);
                proof {
                    self.lemma_cycle_nodes(ci@, out@);
                }
                Err(out)
            },
            None => {
                proof {
                    let missing = lemma_unlisted(order@, self.nodes.len() as int);
                    lemma_ranking_not_stuck(self.edges@, found.1@, order@);
                }
                Err(Vec::new())
            },
        }
    }

    /// A cycle of the graph that passes no node twice, found by depth-first
    /// search from the nodes in arena order.
    pub fn find_cycle(&self) -> (cycle: Vec<Node>)
        requires
            self.wf(),
            self@.has_cycle(),
        ensures
            self@.is_cycle(cycle@),
            cycle@.no_duplicates(),
    {
        let found = search_cycle(&self.edges);
        match found.0 {
            Some(ci) => {
                let out = self.nodes_at(&ci);
                proof {
                    self.lemma_cycle_nodes(ci@, out@);
                }
                out
            },
            None => {
                proof {
                    let c = choose|c: Seq<Node>| self@.is_cycle(c);
                    let ci = self.lemma_cycle_indices(c);
                    lemma_ranking_no_cycle(self.edges@, found.1@, ci);
                }
                Vec::new()
            },
        }
    }
}

/// An order of distinct nodes that is shorter than the arena leaves a node
/// out.
proof fn lemma_unlisted(order: Seq<usize>, n: int) -> (v: int)
    requires
        order.no_duplicates(),
        forall|p: int| 0 <= p < order.len() ==> (#[trigger] order[p]) < n,
        order.len() < n,
    ensures
        0 <= v < n,
        !listed(order, v),
    decreases n,
{
    let last = n - 1;
    if !listed(order, last) {
        last
    } else {
        let p = choose|p: int| 0 <= p < order.len() && #[trigger] order[p] == last;
        let rest = order.remove(p);
        assert forall|i: int, j: int| 0 <= i < rest.len() && 0 <= j < rest.len() && i != j implies rest[i]
            != rest[j] by {
            let oi = if i < p { i } else { i + 1 };
            let oj = if j < p { j } else { j + 1 };
            assert(rest[i] == order[oi]);
            assert(rest[j] == order[oj]);
        }
        assert forall|i: int| 0 <= i < rest.len() implies (#[trigger] rest[i]) < n - 1 by {
            let oi = if i < p { i } else { i + 1 };
            assert(rest[i] == order[oi]);
            assert(order[oi] != order[p]);
        }
        let v = lemma_unlisted(rest, n - 1);
        assert(!listed(order, v)) by {
            if listed(order, v) {
                let q = choose|q: int| 0 <= q < order.len() && #[trigger] order[q] == v;
                assert(q != p);
                let ri = if q < p { q } else { q - 1 };
                assert(rest[ri] == v);
            }
        }
        v
    }
}

/// The reverse view of a dependency graph: an edge from `a` to `b` says that
/// `a` uses `b`, and sorting lists what is used before what uses it.
#[derive(Debug)]
pub struct CoDirectedAcyclicGraph<Node> {
    dag: DirectedAcyclicGraph<Node>,
}

impl<Node: Copy + PartialEq> CoDirectedAcyclicGraph<Node> {
    pub closed spec fn wf(&self) -> bool {
        self.dag.wf()
    }

    /// The graph of the reversed edges: it has an edge from `b` to `a` for
    /// every edge from `a` to `b` that was added.
    pub closed spec fn reversed(&self) -> GraphView<Node> {
        self.dag@
    }

    /// `a` uses `b`: an edge from `a` to `b` was added.
    pub open spec fn uses(&self, a: Node, b: Node) -> bool {
        self.reversed().has_edge(b, a)
    }

    pub fn new() -> (g: Self)
        ensures
            g.wf(),
            g.reversed() == GraphView::<Node>::empty(),
    {
        CoDirectedAcyclicGraph { dag: DirectedAcyclicGraph::new() }
    }

    /// A well-formed graph has a well-formed view.
    pub proof fn lemma_view_wf(&self)
        requires
            self.wf(),
        ensures
            self.reversed().wf(),
    {
        self.dag.lemma_view_wf();
    }

    /// Makes `node` a node of the graph, if it is none yet.
    pub fn add_node(&mut self, node: Node)
        requires
            old(self).wf(),
            eq_is_identity::<Node>(),
        ensures
            final(self).wf(),
            final(self).reversed() == old(self).reversed().with_node(node),
    {
        self.dag.add_node(node);
    }

    /// Records that `from` uses `to`.
    pub fn add_edge(&mut self, from: Node, to: Node)
        requires
            old(self).wf(),
            eq_is_identity::<Node>(),
        ensures
            final(self).wf(),
            final(self).reversed() == old(self).reversed().with_edge(to, from),
    {
        self.dag.add_edge(to, from);
    }

    /// Orders the nodes so that whatever a node uses comes before it, or
    /// returns a cycle of the reversed edges if there is one, and only then.
    pub fn co_topo_sort(&self) -> (r: Result<Vec<Node>, Vec<Node>>)
        requires
            self.wf(),
        ensures
            match r {
                Ok(order) => self.reversed().is_topological_order(order@) && order@
                    == self.reversed().lifo_order(),
                Err(cycle) => self.reversed().is_cycle(cycle@) && cycle@.no_duplicates(),
            },
            r is Ok <==> !self.reversed().has_cycle(),
    {
        self.dag.topo_sort()
    }
}

impl<Node: Copy + PartialEq> Default for CoDirectedAcyclicGraph<Node> {
    fn default() -> (g: Self)
        ensures
            g.wf(),
            g.reversed() == GraphView::<Node>::empty(),
    {
        Self::new()
    }
}

} // verus!
