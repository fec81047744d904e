//! Which segment names which: the dependency graph of the representation.

use vstd::prelude::*;
use crate::dag::{eq_is_identity, lemma_with_edge, lemma_with_node, CoDirectedAcyclicGraph, GraphView};
use crate::ir::{
    segments_view, RustEnumMemberView, RustSegment, RustSegmentView, RustStructMemberView,
    RustType, RustTypeView,
};
use crate::text::str_eq;

verus! {

/// The names of the named types in a type expression, from left to right:
/// the walk enters arrays and maps.
pub open spec fn named_in(ty: RustTypeView) -> Seq<Seq<char>>
    decreases ty,
{
    match ty {
        RustTypeView::Custom(n) => seq![n.name],
        RustTypeView::Array(t) => named_in(*t),
        RustTypeView::Dict(k, v) => named_in(*k) + named_in(*v),
        _ => Seq::empty(),
    }
}

pub open spec fn member_refs(members: Seq<RustStructMemberView>) -> Seq<Seq<char>>
    decreases members.len(),
{
    if members.len() == 0 {
        Seq::empty()
    } else {
        member_refs(members.drop_last()) + named_in(members.last().ty.ty)
    }
}

/// The names in the type that a variant wraps.
pub open spec fn variant_named(v: RustEnumMemberView) -> Seq<Seq<char>> {
    match v.kind.wrapped() {
        Some(t) => named_in(t),
        None => Seq::empty(),
    }
}

pub open spec fn variant_refs(members: Seq<RustEnumMemberView>) -> Seq<Seq<char>>
    decreases members.len(),
{
    if members.len() == 0 {
        Seq::empty()
    } else {
        variant_refs(members.drop_last()) + variant_named(members.last())
    }
}

/// The names that the definition of a segment mentions, in order.
pub open spec fn segment_refs(seg: RustSegmentView) -> Seq<Seq<char>> {
    match seg {
        RustSegmentView::Struct(s) => member_refs(s.member),
        RustSegmentView::Enum(e) => variant_refs(e.member),
        RustSegmentView::Alias(a) => named_in(a.ty),
    }
}

/// The index of the segment called `name`: the last one, should several
/// carry the name.
pub open spec fn resolve(segs: Seq<RustSegmentView>, name: Seq<char>) -> Option<int>
    decreases segs.len(),
{
    if segs.len() == 0 {
        None
    } else if segs.last().name() == name {
        Some(segs.len() - 1)
    } else {
        resolve(segs.drop_last(), name)
    }
}

/// The graph with an edge to `user` from every segment that one of `refs`
/// resolves to.
pub open spec fn add_refs(
    g: GraphView<usize>,
    segs: Seq<RustSegmentView>,
    user: usize,
    refs: Seq<Seq<char>>,
) -> GraphView<usize>
    decreases refs.len(),
{
    if refs.len() == 0 {
        g
    } else {
        let h = add_refs(g, segs, user, refs.drop_last());
        match resolve(segs, refs.last()) {
            Some(to) => h.with_edge(to as usize, user),
            None => h,
        }
    }
}

/// The dependency graph of the first `i` segments, with its edges reversed:
/// every segment is a node, and an edge leads from what is used to what
/// uses it.
pub open spec fn deps_upto(segs: Seq<RustSegmentView>, i: int) -> GraphView<usize>
    decreases i,
{
    if i <= 0 {
        GraphView::empty()
    } else {
        add_refs(
            deps_upto(segs, i - 1).with_node((i - 1) as usize),
            segs,
            (i - 1) as usize,
            segment_refs(segs[i - 1]),
        )
    }
}

pub open spec fn deps_graph(segs: Seq<RustSegmentView>) -> GraphView<usize> {
    deps_upto(segs, segs.len() as int)
}

/// What a name resolves to is a segment of that name.
pub proof fn lemma_resolve_bound(segs: Seq<RustSegmentView>, name: Seq<char>)
    ensures
        resolve(segs, name) matches Some(b) ==> 0 <= b < segs.len() && segs[b].name() == name,
    decreases segs.len(),
{
    if segs.len() > 0 && segs.last().name() != name {
        lemma_resolve_bound(segs.drop_last(), name);
    }
}

/// Where no two segments carry one name, the name of a segment resolves to
/// it.
pub proof fn lemma_resolve_unique(segs: Seq<RustSegmentView>, i: int)
    requires
        0 <= i < segs.len(),
        forall|a: int, b: int|
            0 <= a < segs.len() && 0 <= b < segs.len() && a != b ==> (#[trigger] segs[a]).name() != (
            #[trigger] segs[b]).name(),
    ensures
        resolve(segs, segs[i].name()) == Some(i),
    decreases segs.len(),
{
    if i < segs.len() - 1 {
        let init = segs.drop_last();
        assert(segs[segs.len() - 1].name() != segs[i].name());
        assert forall|a: int, b: int| 0 <= a < init.len() && 0 <= b < init.len() && a != b implies (
        #[trigger] init[a]).name() != (#[trigger] init[b]).name() by {
            assert(init[a] == segs[a] && init[b] == segs[b]);
        }
        lemma_resolve_unique(init, i);
        assert(init[i] == segs[i]);
    }
}

/// The names in the type of one field are among the names of the record.
pub proof fn lemma_member_refs(members: Seq<RustStructMemberView>, i: int, r: Seq<char>)
    requires
        0 <= i < members.len(),
        named_in(members[i].ty.ty).contains(r),
    ensures
        member_refs(members).contains(r),
    decreases members.len(),
{
    let init = member_refs(members.drop_last());
    let last = named_in(members.last().ty.ty);
    if i == members.len() - 1 {
        let k = choose|k: int| 0 <= k < last.len() && last[k] == r;
        assert((init + last)[init.len() + k] == r);
    } else {
        lemma_member_refs(members.drop_last(), i, r);
        let k = choose|k: int| 0 <= k < init.len() && init[k] == r;
        assert((init + last)[k] == r);
    }
}

/// The names in the type of one variant are among the names of the sum
/// type.
pub proof fn lemma_variant_refs(members: Seq<RustEnumMemberView>, i: int, r: Seq<char>)
    requires
        0 <= i < members.len(),
        variant_named(members[i]).contains(r),
    ensures
        variant_refs(members).contains(r),
    decreases members.len(),
{
    let init = variant_refs(members.drop_last());
    let last = variant_named(members.last());
    if i == members.len() - 1 {
        let k = choose|k: int| 0 <= k < last.len() && last[k] == r;
        assert((init + last)[init.len() + k] == r);
    } else {
        lemma_variant_refs(members.drop_last(), i, r);
        let k = choose|k: int| 0 <= k < init.len() && init[k] == r;
        assert((init + last)[k] == r);
    }
}

/// What `add_refs` keeps and what it adds.
pub proof fn lemma_add_refs(
    g: GraphView<usize>,
    segs: Seq<RustSegmentView>,
    user: usize,
    refs: Seq<Seq<char>>,
)
    requires
        g.wf(),
        segs.len() <= usize::MAX,
        user < segs.len(),
        g.nodes.contains(user),
        forall|x: usize| #[trigger] g.nodes.contains(x) ==> x < segs.len(),
    ensures
        add_refs(g, segs, user, refs).wf(),
        forall|x: usize| #[trigger] add_refs(g, segs, user, refs).nodes.contains(x) ==> x < segs.len(),
        forall|x: usize| #[trigger] g.nodes.contains(x) ==> add_refs(g, segs, user, refs).nodes.contains(x),
        forall|a: usize, b: usize| #[trigger]
            g.has_edge(a, b) ==> add_refs(g, segs, user, refs).has_edge(a, b),
        forall|r: Seq<char>|
            refs.contains(r) && resolve(segs, r) is Some ==> #[trigger] add_refs(
                g,
                segs,
                user,
                refs,
            ).has_edge(resolve(segs, r)->0 as usize, user),
    decreases refs.len(),
{
    if refs.len() > 0 {
        let init = refs.drop_last();
        let h = add_refs(g, segs, user, init);
        lemma_add_refs(g, segs, user, init);
        let out = add_refs(g, segs, user, refs);
        match resolve(segs, refs.last()) {
            Some(to) => {
                lemma_resolve_bound(segs, refs.last());
                lemma_with_edge(h, to as usize, user);
            },
            None => {},
        }
        assert forall|r: Seq<char>| refs.contains(r) && resolve(segs, r) is Some implies #[trigger] out.has_edge(
            resolve(segs, r)->0 as usize,
            user,
        ) by {
            let k = choose|k: int| 0 <= k < refs.len() && refs[k] == r;
            if k < refs.len() - 1 {
                assert(init[k] == r);
                assert(h.has_edge(resolve(segs, r)->0 as usize, user));
            }
        }
    }
}

/// The dependency graph is well-formed, its nodes are the indices of the
/// first `i` segments and of what they use, and it has an edge for every
/// use.
pub proof fn lemma_deps_upto(segs: Seq<RustSegmentView>, i: int)
    requires
        0 <= i <= segs.len() <= usize::MAX,
    ensures
        deps_upto(segs, i).wf(),
        forall|x: usize| #[trigger] deps_upto(segs, i).nodes.contains(x) ==> x < segs.len(),
        forall|x: usize| x < i ==> #[trigger] deps_upto(segs, i).nodes.contains(x),
        forall|user: usize, r: Seq<char>|
            user < i && segment_refs(segs[user as int]).contains(r) && resolve(segs, r) is Some
                ==> #[trigger] deps_upto(segs, i).has_edge(resolve(segs, r)->0 as usize, user),
    decreases i,
{
    if i > 0 {
        let g0 = deps_upto(segs, i - 1);
        lemma_deps_upto(segs, i - 1);
        let user = (i - 1) as usize;
        let g1 = g0.with_node(user);
        lemma_with_node(g0, user);
        let refs = segment_refs(segs[i - 1]);
        lemma_add_refs(g1, segs, user, refs);
        let out = deps_upto(segs, i);
        assert forall|x: usize| x < i implies #[trigger] out.nodes.contains(x) by {
            assert(g1.nodes.contains(x));
        }
        assert forall|u: usize, r: Seq<char>|
            u < i && segment_refs(segs[u as int]).contains(r) && resolve(segs, r) is Some implies #[trigger] out.has_edge(
            resolve(segs, r)->0 as usize,
            u,
        ) by {
            if u < i - 1 {
                assert(g0.has_edge(resolve(segs, r)->0 as usize, u));
                assert(g1.has_edge(resolve(segs, r)->0 as usize, u));
            }
        }
    }
}

/// The views of a list of borrowed names.
pub open spec fn names_view(names: Seq<&str>) -> Seq<Seq<char>> {
    names.map_values(|s: &str| s@)
}

fn collect_named<'a>(ty: &'a RustType, out: &mut Vec<&'a str>)
    ensures
        names_view(final(out)@) == names_view(old(out)@) + named_in(ty@),
    decreases ty,
{
    match ty {
        RustType::Custom(n) => {
            out.push(n.name.as_str());
            assert(names_view(out@) =~= names_view(old(out)@) + seq![n.name@]);
        },
        RustType::Array(t) => {
            collect_named(t, out);
        },
        RustType::Dict(k, v) => {
            collect_named(k, out);
            collect_named(v, out);
            assert(names_view(out@) =~= names_view(old(out)@) + (named_in(k@) + named_in(v@)));
        },
        _ => {
            assert(names_view(out@) =~= names_view(old(out)@) + Seq::<Seq<char>>::empty());
        },
    }
}

/// The names that the definition of a segment mentions, in order.
pub fn segment_names(seg: &RustSegment) -> (r: Vec<&str>)
    ensures
        names_view(r@) == segment_refs(seg@),
{
    let mut out: Vec<&str> = Vec::new();
    assert(names_view(out@) =~= Seq::<Seq<char>>::empty());
    match seg {
        RustSegment::Struct(s) => {
            let ghost members = s@.member;
            let mut i: usize = 0;
            while i < s.member.len()
                invariant
                    i <= s.member.len(),
                    members == s@.member,
                    names_view(out@) == member_refs(members.take(i as int)),
                decreases s.member.len() - i,
            {
                proof {
                    assert(members.take(i + 1).drop_last() =~= members.take(i as int));
                    assert(members.take(i + 1).last() == s.member@[i as int]@);
                }
                collect_named(&s.member[i].ty.ty, &mut out);
                i += 1;
            }
            assert(members.take(s.member.len() as int) =~= members);
        },
        RustSegment::Enum(e) => {
            let ghost members = e@.member;
            let mut i: usize = 0;
            while i < e.member.len()
                invariant
                    i <= e.member.len(),
                    members == e@.member,
                    names_view(out@) == variant_refs(members.take(i as int)),
                decreases e.member.len() - i,
            {
                proof {
                    assert(members.take(i + 1).drop_last() =~= members.take(i as int));
                    assert(members.take(i + 1).last() == e.member@[i as int]@);
                }
                let ghost before = names_view(out@);
                match e.member[i].kind.as_type() {
                    Some(t) => {
                        collect_named(t, &mut out);
                    },
                    None => {
                        assert(before + Seq::<Seq<char>>::empty() =~= before);
                    },
                }
                i += 1;
            }
            assert(members.take(e.member.len() as int) =~= members);
        },
        RustSegment::Alias(a) => {
            collect_named(&a.ty, &mut out);
            assert(Seq::<Seq<char>>::empty() + named_in(a.ty@) =~= named_in(a.ty@));
        },
    }
    out
}

/// The index of the segment called `name`: the last one, should several
/// carry the name.
pub fn resolve_name(segments: &Vec<RustSegment>, name: &str) -> (r: Option<usize>)
    ensures
        match r {
            Some(i) => i < segments.len() && resolve(segments_view(segments@), name@) == Some(i as int),
            None => resolve(segments_view(segments@), name@) is None,
        },
{
    let ghost segs = segments_view(segments@);
    let mut i = segments.len();
    assert(segs.take(i as int) =~= segs);
    while i > 0
        invariant
            i <= segments.len(),
            segs == segments_view(segments@),
            resolve(segs, name@) == resolve(segs.take(i as int), name@),
        decreases i,
    {
        i -= 1;
        proof {
            assert(segs.take(i + 1).drop_last() =~= segs.take(i as int));
            assert(segs.take(i + 1).last() == segments@[i as int]@);
        }
        if str_eq(segments[i].name(), name) {
            return Some(i);
        }
    }
    None
}

/// Builds the dependency graph of the segments: every segment is a node,
/// named by its index, and uses the segments that the names in its
/// definition resolve to.
pub fn type_deps(segments: &Vec<RustSegment>) -> (g: CoDirectedAcyclicGraph<usize>)
    ensures
        g.wf(),
        g.reversed() == deps_graph(segments_view(segments@)),
{
    let ghost segs = segments_view(segments@);
    let mut deps: CoDirectedAcyclicGraph<usize> = CoDirectedAcyclicGraph::new();
    assert(eq_is_identity::<usize>());
    let mut i: usize = 0;
    while i < segments.len()
        invariant
            i <= segments.len(),
            segs == segments_view(segments@),
            deps.wf(),
            deps.reversed() == deps_upto(segs, i as int),
            eq_is_identity::<usize>(),
        decreases segments.len() - i,
    {
        deps.add_node(i);
        let children = segment_names(&segments[i]);
        let ghost refs = segment_refs(segs[i as int]);
        let ghost base = deps.reversed();
        let mut k: usize = 0;
        while k < children.len()
            invariant
                k <= children.len(),
                i < segments.len(),
                segs == segments_view(segments@),
                names_view(children@) == refs,
                deps.wf(),
                deps.reversed() == add_refs(base, segs, i, refs.take(k as int)),
                eq_is_identity::<usize>(),
            decreases children.len() - k,
        {
            proof {
                assert(refs.take(k + 1).drop_last() =~= refs.take(k as int));
                assert(refs.take(k + 1).last() == children@[k as int]@);
            }
            if let Some(to) = resolve_name(segments, children[k]) {
                deps.add_edge(i, to);
            }
            k += 1;
        }
        assert(refs.take(children.len() as int) =~= refs);
        i += 1;
    }
    deps
}

} // verus!
