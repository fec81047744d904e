//! Decides which segments may borrow from the input, and propagates the
//! decision from what is used to what uses it.

use vstd::prelude::*;
use crate::dag::{lemma_topological_order_lists_nodes, CoDirectedAcyclicGraph};
use crate::ir::deps::{
    deps_graph, lemma_deps_upto, lemma_member_refs, lemma_resolve_unique,
    lemma_variant_refs, named_in, resolve, segment_refs, variant_named,
};
use crate::ir::{
    segments_view, RustAliasView, RustEnumMember, RustEnumMemberView, RustEnumView,
    RustFieldAttr, RustMemberTypeView, RustSegment, RustSegmentView, RustStructMember,
    RustStructMemberView, RustStructView, RustType, RustTypeView, RustVariantAttr, SerdeFieldAttr,
    SerdeFieldAttrView, SerdeVariantAttr, SerdeVariantAttrView, TypeNameView,
};
use crate::strmap::StringMap;

verus! {

/// The type in its borrowing form, given the names `d` of the segments that
/// borrow: text borrows, and a reference to a segment in `d` is marked.
pub open spec fn borrow_type(ty: RustTypeView, d: Set<Seq<char>>) -> RustTypeView
    decreases ty,
{
    match ty {
        RustTypeView::String { .. } => RustTypeView::String { is_borrowed: true },
        RustTypeView::Custom(n) => if d.contains(n.name) {
            RustTypeView::Custom(TypeNameView { name: n.name, is_borrowed: true })
        } else {
            ty
        },
        RustTypeView::Array(t) => RustTypeView::Array(Box::new(borrow_type(*t, d))),
        RustTypeView::Dict(k, v) => RustTypeView::Dict(
            Box::new(borrow_type(*k, d)),
            Box::new(borrow_type(*v, d)),
        ),
        _ => ty,
    }
}

/// Whether the type holds text or a reference to a segment in `d`.
pub open spec fn type_borrows(ty: RustTypeView, d: Set<Seq<char>>) -> bool
    decreases ty,
{
    match ty {
        RustTypeView::String { .. } => true,
        RustTypeView::Custom(n) => d.contains(n.name),
        RustTypeView::Array(t) => type_borrows(*t, d),
        RustTypeView::Dict(k, v) => type_borrows(*k, d) || type_borrows(*v, d),
        _ => false,
    }
}

/// Whether some field holds text or a reference to a segment in `d`.
pub open spec fn members_borrow(members: Seq<RustStructMemberView>, d: Set<Seq<char>>) -> bool {
    exists|i: int| 0 <= i < members.len() && type_borrows(#[trigger] members[i].ty.ty, d)
}

/// The type that a variant wraps holds text or a reference to a segment in
/// `d`.
pub open spec fn variant_borrows(v: RustEnumMemberView, d: Set<Seq<char>>) -> bool {
    v.kind.wrapped() matches Some(t) && type_borrows(t, d)
}

pub open spec fn variants_borrow(members: Seq<RustEnumMemberView>, d: Set<Seq<char>>) -> bool {
    exists|i: int| 0 <= i < members.len() && variant_borrows(#[trigger] members[i], d)
}

/// Whether the segment becomes reference-capable, given the names `d` of
/// the segments that are.
pub open spec fn segment_borrows(seg: RustSegmentView, d: Set<Seq<char>>) -> bool {
    match seg {
        RustSegmentView::Struct(s) => members_borrow(s.member, d),
        RustSegmentView::Enum(e) => variants_borrow(e.member, d),
        RustSegmentView::Alias(a) => type_borrows(a.ty, d),
    }
}

/// The field with its type in borrowing form; in a record that borrows, a
/// field whose type borrows gets the `borrow` attribute.
pub open spec fn borrow_member(m: RustStructMemberView, d: Set<Seq<char>>, mark: bool) -> RustStructMemberView {
    let ty = borrow_type(m.ty.ty, d);
    RustStructMemberView {
        attr: if mark && ty.is_borrowed() {
            m.attr.push(SerdeFieldAttrView::Borrow)
        } else {
            m.attr
        },
        ty: RustMemberTypeView { ty, is_optional: m.ty.is_optional },
        ..m
    }
}

/// The variant with the type it wraps in borrowing form; in a sum type that
/// borrows, a variant whose type borrows gets the `borrow` attribute.
pub open spec fn borrow_variant(v: RustEnumMemberView, d: Set<Seq<char>>, mark: bool) -> RustEnumMemberView {
    match v.kind.wrapped() {
        Some(t) => RustEnumMemberView {
            attr: if mark && borrow_type(t, d).is_borrowed() {
                v.attr.push(SerdeVariantAttrView::Borrow)
            } else {
                v.attr
            },
            kind: v.kind.with_wrapped(borrow_type(t, d)),
        },
        None => v,
    }
}

/// The segment after the pass, given the names `d` of the segments that
/// borrow.
pub open spec fn borrow_segment(seg: RustSegmentView, d: Set<Seq<char>>) -> RustSegmentView {
    let did = segment_borrows(seg, d);
    match seg {
        RustSegmentView::Struct(s) => RustSegmentView::Struct(
            RustStructView {
                member: s.member.map_values(|m: RustStructMemberView| borrow_member(m, d, did)),
                is_borrowed: did || s.is_borrowed,
                ..s
            },
        ),
        RustSegmentView::Enum(e) => RustSegmentView::Enum(
            RustEnumView {
                member: e.member.map_values(|v: RustEnumMemberView| borrow_variant(v, d, did)),
                is_borrowed: did || e.is_borrowed,
                ..e
            },
        ),
        RustSegmentView::Alias(a) => RustSegmentView::Alias(
            RustAliasView { ty: borrow_type(a.ty, d), is_borrowed: did || a.is_borrowed, ..a },
        ),
    }
}

/// No two segments carry one name.
pub open spec fn unique_names(segs: Seq<RustSegmentView>) -> bool {
    forall|i: int, j: int|
        0 <= i < segs.len() && 0 <= j < segs.len() && i != j ==> (#[trigger] segs[i]).name() != (
        #[trigger] segs[j]).name()
}

/// `after` is what the pass makes of `before`, and `d` holds the names of
/// exactly the segments that borrow: those that hold text, and those that
/// use a segment that borrows.
pub open spec fn borrow_solution(
    before: Seq<RustSegmentView>,
    after: Seq<RustSegmentView>,
    d: Set<Seq<char>>,
) -> bool {
    &&& after.len() == before.len()
    &&& forall|i: int| 0 <= i < before.len() ==> #[trigger] after[i] == borrow_segment(before[i], d)
    &&& forall|name: Seq<char>| #[trigger]
        d.contains(name) <==> exists|i: int|
            0 <= i < before.len() && (#[trigger] before[i]).name() == name && segment_borrows(
                before[i],
                d,
            )
}

fn borrow_in_type(ty: &mut RustType, did_borrow: &mut bool, decorated: &StringMap<()>)
    requires
        decorated.wf(),
    ensures
        final(ty)@ == borrow_type(old(ty)@, decorated@.dom()),
        *final(did_borrow) == (*old(did_borrow) || type_borrows(old(ty)@, decorated@.dom())),
    decreases *old(ty),
{
    match ty {
        RustType::String { is_borrowed } => {
            *is_borrowed = true;
            *did_borrow = true;
        },
        RustType::Number => (),
        RustType::Boolean => (),
        RustType::Custom(t) => {
            if decorated.contains_key(t.name.as_str()) {
                t.is_borrowed = true;
                *did_borrow = true;
            }
        },
        RustType::Array(t) => {
            borrow_in_type(&mut **t, did_borrow, decorated);
        },
        RustType::Unit => (),
        RustType::Unknown => (),
        RustType::UnknownLiteral => (),
        RustType::UnknownIntersection => (),
        RustType::Dict(t1, t2) => {
            borrow_in_type(&mut **t1, did_borrow, decorated);
            borrow_in_type(&mut **t2, did_borrow, decorated);
        },
    }
}

fn borrow_in_members(members: &mut Vec<RustStructMember>, decorated: &StringMap<()>) -> (did: bool)
    requires
        decorated.wf(),
    ensures
        did == members_borrow(old(members)@.map_values(|m: RustStructMember| m@), decorated@.dom()),
        final(members)@.map_values(|m: RustStructMember| m@) == old(members)@.map_values(
            |m: RustStructMember| m@,
        ).map_values(|m: RustStructMemberView| borrow_member(m, decorated@.dom(), did)),
{
    let ghost d = decorated@.dom();
    let ghost before = old(members)@.map_values(|m: RustStructMember| m@);
    let mut did_borrow = false;
    let mut i: usize = 0;
    while i < members.len()
        invariant
            i <= members.len(),
            members.len() == before.len(),
            decorated.wf(),
            d == decorated@.dom(),
            before == old(members)@.map_values(|m: RustStructMember| m@),
            did_borrow == members_borrow(before.take(i as int), d),
            forall|j: int| 0 <= j < i ==> (#[trigger] members@[j])@ == borrow_member(before[j], d, false),
            forall|j: int| i <= j < members.len() ==> (#[trigger] members@[j])@ == before[j],
        decreases members.len() - i,
    {
        let ghost was = did_borrow;
        borrow_in_type(&mut members[i].ty.ty, &mut did_borrow, decorated);
        proof {
            let a = before.take(i as int);
            let b = before.take(i + 1);
            assert(b[i as int] == before[i as int]);
            if was {
                let w = choose|w: int| 0 <= w < a.len() && type_borrows(#[trigger] a[w].ty.ty, d);
                assert(b[w] == a[w]);
            }
            if members_borrow(b, d) && !type_borrows(before[i as int].ty.ty, d) {
                let w = choose|w: int| 0 <= w < b.len() && type_borrows(#[trigger] b[w].ty.ty, d);
                assert(a[w] == b[w]);
            }
        }
        i += 1;
    }
    assert(before.take(members.len() as int) =~= before);
    if did_borrow {
        let mut k: usize = 0;
        while k < members.len()
            invariant
                k <= members.len(),
                members.len() == before.len(),
                forall|j: int| 0 <= j < k ==> (#[trigger] members@[j])@ == borrow_member(before[j], d, true),
                forall|j: int| k <= j < members.len() ==> (#[trigger] members@[j])@ == borrow_member(before[j], d, false),
            decreases members.len() - k,
        {
            if members[k].ty.ty.is_borrowed() {
                let ghost attrs = members@[k as int].attr@;
                members[k].attr.add_attr(RustFieldAttr::Serde(SerdeFieldAttr::Borrow));
                assert(members@[k as int].attr@ =~= attrs.push(SerdeFieldAttrView::Borrow));
            }
            k += 1;
        }
    }
    assert(members@.map_values(|m: RustStructMember| m@) =~= before.map_values(
        |m: RustStructMemberView| borrow_member(m, d, did_borrow),
    ));
    did_borrow
}

fn borrow_in_variants(members: &mut Vec<RustEnumMember>, decorated: &StringMap<()>) -> (did: bool)
    requires
        decorated.wf(),
    ensures
        did == variants_borrow(old(members)@.map_values(|m: RustEnumMember| m@), decorated@.dom()),
        final(members)@.map_values(|m: RustEnumMember| m@) == old(members)@.map_values(
            |m: RustEnumMember| m@,
        ).map_values(|m: RustEnumMemberView| borrow_variant(m, decorated@.dom(), did)),
{
    let ghost d = decorated@.dom();
    let ghost before = old(members)@.map_values(|m: RustEnumMember| m@);
    let mut did_borrow = false;
    let mut i: usize = 0;
    while i < members.len()
        invariant
            i <= members.len(),
            members.len() == before.len(),
            decorated.wf(),
            d == decorated@.dom(),
            before == old(members)@.map_values(|m: RustEnumMember| m@),
            did_borrow == variants_borrow(before.take(i as int), d),
            forall|j: int| 0 <= j < i ==> (#[trigger] members@[j])@ == borrow_variant(before[j], d, false),
            forall|j: int| i <= j < members.len() ==> (#[trigger] members@[j])@ == before[j],
        decreases members.len() - i,
    {
        let ghost was = did_borrow;
        if let Some(t) = members[i].kind.as_type_mut() {
            borrow_in_type(t, &mut did_borrow, decorated);
        }
        proof {
            let a = before.take(i as int);
            let b = before.take(i + 1);
            assert(b[i as int] == before[i as int]);
            if was {
                let w = choose|w: int| 0 <= w < a.len() && variant_borrows(#[trigger] a[w], d);
                assert(b[w] == a[w]);
            }
            if variants_borrow(b, d) && !variant_borrows(before[i as int], d) {
                let w = choose|w: int| 0 <= w < b.len() && variant_borrows(#[trigger] b[w], d);
                assert(a[w] == b[w]);
            }
        }
        i += 1;
    }
    assert(before.take(members.len() as int) =~= before);
    if did_borrow {
        let mut k: usize = 0;
        while k < members.len()
            invariant
                k <= members.len(),
                members.len() == before.len(),
                forall|j: int| 0 <= j < k ==> (#[trigger] members@[j])@ == borrow_variant(before[j], d, true),
                forall|j: int| k <= j < members.len() ==> (#[trigger] members@[j])@ == borrow_variant(before[j], d, false),
            decreases members.len() - k,
        {
            let marks = match members[k].kind.as_type() {
                Some(t) => t.is_borrowed(),
                None => false,
            };
            if marks {
                let ghost attrs = members@[k as int].attr@;
                members[k].attr.add_attr(RustVariantAttr::Serde(SerdeVariantAttr::Borrow));
                assert(members@[k as int].attr@ =~= attrs.push(SerdeVariantAttrView::Borrow));
            }
            k += 1;
        }
    }
    assert(members@.map_values(|m: RustEnumMember| m@) =~= before.map_values(
        |m: RustEnumMemberView| borrow_variant(m, d, did_borrow),
    ));
    did_borrow
}

/// Applies the pass to one segment and says whether the segment borrows.
fn borrow_in_segment(seg: &mut RustSegment, decorated: &StringMap<()>) -> (did: bool)
    requires
        decorated.wf(),
    ensures
        did == segment_borrows(old(seg)@, decorated@.dom()),
        final(seg)@ == borrow_segment(old(seg)@, decorated@.dom()),
        final(seg)@.name() == old(seg)@.name(),
{
    match seg {
        RustSegment::Struct(s) => {
            let did = borrow_in_members(&mut s.member, decorated);
            if did {
                s.is_borrowed = true;
            }
            did
        },
        RustSegment::Enum(e) => {
            let did = borrow_in_variants(&mut e.member, decorated);
            if did {
                e.is_borrowed = true;
            }
            did
        },
        RustSegment::Alias(a) => {
            let mut did = false;
            borrow_in_type(&mut a.ty, &mut did, decorated);
            if did {
                a.is_borrowed = true;
            }
            did
        },
    }
}

/// Two sets of names that agree on the names in a type make the same of
/// the type.
pub proof fn lemma_borrow_agree_type(ty: RustTypeView, d1: Set<Seq<char>>, d2: Set<Seq<char>>)
    requires
        forall|r: Seq<char>| named_in(ty).contains(r) ==> (d1.contains(r) <==> d2.contains(r)),
    ensures
        borrow_type(ty, d1) == borrow_type(ty, d2),
        type_borrows(ty, d1) == type_borrows(ty, d2),
    decreases ty,
{
    match ty {
        RustTypeView::Custom(n) => {
            assert(named_in(ty)[0] == n.name);
        },
        RustTypeView::Array(t) => {
            lemma_borrow_agree_type(*t, d1, d2);
        },
        RustTypeView::Dict(k, v) => {
            let nk = named_in(*k);
            let nv = named_in(*v);
            assert forall|r: Seq<char>| nk.contains(r) implies (d1.contains(r) <==> d2.contains(r)) by {
                let i = choose|i: int| 0 <= i < nk.len() && nk[i] == r;
                assert((nk + nv)[i] == r);
            }
            assert forall|r: Seq<char>| nv.contains(r) implies (d1.contains(r) <==> d2.contains(r)) by {
                let i = choose|i: int| 0 <= i < nv.len() && nv[i] == r;
                assert((nk + nv)[nk.len() + i] == r);
            }
            lemma_borrow_agree_type(*k, d1, d2);
            lemma_borrow_agree_type(*v, d1, d2);
        },
        _ => {},
    }
}

/// Two sets of names that agree on the names that a segment mentions make
/// the same of the segment.
pub proof fn lemma_borrow_agree_segment(seg: RustSegmentView, d1: Set<Seq<char>>, d2: Set<Seq<char>>)
    requires
        forall|r: Seq<char>| segment_refs(seg).contains(r) ==> (d1.contains(r) <==> d2.contains(r)),
    ensures
        borrow_segment(seg, d1) == borrow_segment(seg, d2),
        segment_borrows(seg, d1) == segment_borrows(seg, d2),
{
    match seg {
        RustSegmentView::Struct(s) => {
            assert forall|i: int| 0 <= i < s.member.len() implies borrow_type(
                (#[trigger] s.member[i]).ty.ty,
                d1,
            ) == borrow_type(s.member[i].ty.ty, d2) && type_borrows(s.member[i].ty.ty, d1)
                == type_borrows(s.member[i].ty.ty, d2) by {
                assert forall|r: Seq<char>| named_in(s.member[i].ty.ty).contains(r) implies (d1.contains(r)
                    <==> d2.contains(r)) by {
                    lemma_member_refs(s.member, i, r);
                }
                lemma_borrow_agree_type(s.member[i].ty.ty, d1, d2);
            }
            if members_borrow(s.member, d1) {
                let i = choose|i: int| 0 <= i < s.member.len() && type_borrows(#[trigger] s.member[i].ty.ty, d1);
                assert(type_borrows(s.member[i].ty.ty, d2));
            }
            if members_borrow(s.member, d2) {
                let i = choose|i: int| 0 <= i < s.member.len() && type_borrows(#[trigger] s.member[i].ty.ty, d2);
                assert(type_borrows(s.member[i].ty.ty, d1));
            }
            let did = members_borrow(s.member, d1);
            assert(s.member.map_values(|m: RustStructMemberView| borrow_member(m, d1, did))
                =~= s.member.map_values(|m: RustStructMemberView| borrow_member(m, d2, did)));
        },
        RustSegmentView::Enum(e) => {
            assert forall|i: int| 0 <= i < e.member.len() implies borrow_variant(
                #[trigger] e.member[i],
                d1,
                true,
            ) == borrow_variant(e.member[i], d2, true) && borrow_variant(e.member[i], d1, false)
                == borrow_variant(e.member[i], d2, false) && variant_borrows(e.member[i], d1)
                == variant_borrows(e.member[i], d2) by {
                match e.member[i].kind.wrapped() {
                    Some(t) => {
                        assert forall|r: Seq<char>| named_in(t).contains(r) implies (d1.contains(r)
                            <==> d2.contains(r)) by {
                            lemma_variant_refs(e.member, i, r);
                        }
                        lemma_borrow_agree_type(t, d1, d2);
                    },
                    None => {},
                }
            }
            if variants_borrow(e.member, d1) {
                let i = choose|i: int| 0 <= i < e.member.len() && variant_borrows(#[trigger] e.member[i], d1);
                assert(variant_borrows(e.member[i], d2));
            }
            if variants_borrow(e.member, d2) {
                let i = choose|i: int| 0 <= i < e.member.len() && variant_borrows(#[trigger] e.member[i], d2);
                assert(variant_borrows(e.member[i], d1));
            }
            let did = variants_borrow(e.member, d1);
            assert(e.member.map_values(|v: RustEnumMemberView| borrow_variant(v, d1, did))
                =~= e.member.map_values(|v: RustEnumMemberView| borrow_variant(v, d2, did)));
        },
        RustSegmentView::Alias(a) => {
            lemma_borrow_agree_type(a.ty, d1, d2);
        },
    }
}

/// A type that names a segment in `d` borrows.
pub proof fn lemma_named_borrows(ty: RustTypeView, d: Set<Seq<char>>, r: Seq<char>)
    requires
        named_in(ty).contains(r),
        d.contains(r),
    ensures
        type_borrows(ty, d),
    decreases ty,
{
    match ty {
        RustTypeView::Custom(n) => {
            assert(named_in(ty)[0] == n.name);
        },
        RustTypeView::Array(t) => {
            lemma_named_borrows(*t, d, r);
        },
        RustTypeView::Dict(k, v) => {
            let nk = named_in(*k);
            let nv = named_in(*v);
            let i = choose|i: int| 0 <= i < (nk + nv).len() && (nk + nv)[i] == r;
            if i < nk.len() {
                assert(nk[i] == r);
                lemma_named_borrows(*k, d, r);
            } else {
                assert(nv[i - nk.len()] == r);
                lemma_named_borrows(*v, d, r);
            }
        },
        _ => {},
    }
}

/// Marks every segment that may borrow from the input: one that holds
/// text, and one that uses a segment that is marked. The segments are
/// visited in an order in which whatever a segment uses comes before it.
pub fn adapt_borrow(segments: &mut Vec<RustSegment>, type_deps: &CoDirectedAcyclicGraph<usize>)
    requires
        type_deps.wf(),
        type_deps.reversed() == deps_graph(segments_view(old(segments)@)),
        !type_deps.reversed().has_cycle(),
        unique_names(segments_view(old(segments)@)),
    ensures
        exists|d: Set<Seq<char>>|
            borrow_solution(segments_view(old(segments)@), segments_view(final(segments)@), d),
{
    let ghost segs0 = segments_view(segments@);
    let ghost g = type_deps.reversed();
    let n = segments.len();
    let sorted = match type_deps.co_topo_sort() {
        Ok(s) => s,
        Err(cy) => {
            assert(g.is_cycle(cy@));
            return ;
        },
    };
    proof {
        lemma_deps_upto(segs0, n as int);
        lemma_topological_order_lists_nodes(g, sorted@);
        assert forall|q: int| 0 <= q < sorted.len() implies (#[trigger] sorted@[q]) < n by {
            assert(g.nodes.contains(sorted@[q]));
        }
    }
    let mut decorated: StringMap<()> = StringMap::new();
    let mut p: usize = 0;
    while p < sorted.len()
        invariant
            p <= sorted.len(),
            segments.len() == n,
            n == segs0.len(),
            decorated.wf(),
            g == deps_graph(segs0),
            g.is_topological_order(sorted@),
            unique_names(segs0),
            forall|q: int| 0 <= q < sorted.len() ==> (#[trigger] sorted@[q]) < n,
            forall|user: usize, r: Seq<char>|
                user < n && segment_refs(segs0[user as int]).contains(r) && resolve(segs0, r) is Some
                    ==> #[trigger] g.has_edge(resolve(segs0, r)->0 as usize, user),
            forall|q: int|
                0 <= q < p ==> (#[trigger] segments@[sorted@[q] as int])@ == borrow_segment(
                    segs0[sorted@[q] as int],
                    decorated@.dom(),
                ),
            forall|q: int|
                p <= q < sorted.len() ==> (#[trigger] segments@[sorted@[q] as int])@ == segs0[sorted@[q] as int],
            forall|name: Seq<char>| #[trigger]
                decorated@.dom().contains(name) <==> exists|q: int|
                    0 <= q < p && (#[trigger] segs0[sorted@[q] as int]).name() == name
                        && segment_borrows(segs0[sorted@[q] as int], decorated@.dom()),
        decreases sorted.len() - p,
    {
        let index = sorted[p];
        let ghost d = decorated@.dom();
        let ghost before = segments@;
        let did = borrow_in_segment(&mut segments[index], &decorated);
        let ghost name = segs0[index as int].name();
        if did {
            decorated.insert(segments[index].name().to_owned(), ());
        }
        proof {
            let d2 = decorated@.dom();
            assert(d2 =~= if did { d.insert(name) } else { d });
            assert forall|q: int| 0 <= q <= p implies borrow_segment(
                segs0[(#[trigger] sorted@[q]) as int],
                d2,
            ) == borrow_segment(segs0[sorted@[q] as int], d) && segment_borrows(
                segs0[sorted@[q] as int],
                d2,
            ) == segment_borrows(segs0[sorted@[q] as int], d) by {
                let j = sorted@[q];
                assert forall|r: Seq<char>| segment_refs(segs0[j as int]).contains(r) implies (d.contains(r)
                    <==> d2.contains(r)) by {
                    if r == name && did && !d.contains(r) {
                        lemma_resolve_unique(segs0, index as int);
                        assert(g.has_edge(resolve(segs0, r)->0 as usize, j));
                        assert(g.has_edge(sorted@[p as int], sorted@[q]));
                    }
                }
                lemma_borrow_agree_segment(segs0[j as int], d, d2);
            }
            assert forall|q: int| 0 <= q < p + 1 implies (#[trigger] segments@[sorted@[q] as int])@
                == borrow_segment(segs0[sorted@[q] as int], d2) by {
                if q < p {
                    assert(sorted@[q] != sorted@[p as int]);
                    assert(segments@[sorted@[q] as int] == before[sorted@[q] as int]);
                }
            }
            assert forall|q: int| p + 1 <= q < sorted.len() implies (#[trigger] segments@[sorted@[q] as int])@
                == segs0[sorted@[q] as int] by {
                assert(sorted@[q] != sorted@[p as int]);
                assert(segments@[sorted@[q] as int] == before[sorted@[q] as int]);
            }
            assert forall|nm: Seq<char>| #[trigger]
                d2.contains(nm) <==> exists|q: int|
                    0 <= q < p + 1 && (#[trigger] segs0[sorted@[q] as int]).name() == nm
                        && segment_borrows(segs0[sorted@[q] as int], d2) by {
                if d2.contains(nm) {
                    if d.contains(nm) {
                        let q = choose|q: int|
                            0 <= q < p && (#[trigger] segs0[sorted@[q] as int]).name() == nm
                                && segment_borrows(segs0[sorted@[q] as int], d);
                        assert(segment_borrows(segs0[sorted@[q] as int], d2));
                    } else {
                        assert(segs0[sorted@[p as int] as int].name() == nm);
                        assert(segment_borrows(segs0[sorted@[p as int] as int], d2));
                    }
                }
                if exists|q: int|
                    0 <= q < p + 1 && (#[trigger] segs0[sorted@[q] as int]).name() == nm
                        && segment_borrows(segs0[sorted@[q] as int], d2) {
                    let q = choose|q: int|
                        0 <= q < p + 1 && (#[trigger] segs0[sorted@[q] as int]).name() == nm
                            && segment_borrows(segs0[sorted@[q] as int], d2);
                    if q < p {
                        assert(segment_borrows(segs0[sorted@[q] as int], d));
                        assert(d.contains(nm));
                    }
                }
            }
        }
        p += 1;
    }
    proof {
        let d = decorated@.dom();
        let after = segments_view(segments@);
        assert forall|i: int| 0 <= i < n implies #[trigger] after[i] == borrow_segment(segs0[i], d) by {
            assert(g.nodes.contains(i as usize));
            assert(sorted@.contains(i as usize));
            let q = choose|q: int| 0 <= q < sorted@.len() && sorted@[q] == i as usize;
            assert(segments@[sorted@[q] as int]@ == borrow_segment(segs0[sorted@[q] as int], d));
        }
        assert forall|nm: Seq<char>| #[trigger]
            d.contains(nm) <==> exists|i: int|
                0 <= i < n && (#[trigger] segs0[i]).name() == nm && segment_borrows(segs0[i], d) by {
            if d.contains(nm) {
                let q = choose|q: int|
                    0 <= q < p && (#[trigger] segs0[sorted@[q] as int]).name() == nm
                        && segment_borrows(segs0[sorted@[q] as int], d);
                assert(segs0[sorted@[q] as int].name() == nm);
            }
            if exists|i: int|
                0 <= i < n && (#[trigger] segs0[i]).name() == nm && segment_borrows(segs0[i], d) {
                let i = choose|i: int|
                    0 <= i < n && (#[trigger] segs0[i]).name() == nm && segment_borrows(segs0[i], d);
                assert(g.nodes.contains(i as usize));
                assert(sorted@.contains(i as usize));
                let q = choose|q: int| 0 <= q < sorted@.len() && sorted@[q] == i as usize;
                assert(segs0[sorted@[q] as int].name() == nm);
            }
        }
        assert(borrow_solution(segs0, after, d));
    }
}

/// Reference-capability propagates to every user: where a segment is put
/// through the pass, mentions a name, and the segment of that name is
/// marked reference-capable, the user is marked too. It holds of segments
/// that were all unmarked before the pass.
pub proof fn lemma_borrow_reaches_users(
    before: Seq<RustSegmentView>,
    after: Seq<RustSegmentView>,
    d: Set<Seq<char>>,
    user: int,
    used: int,
)
    requires
        borrow_solution(before, after, d),
        forall|i: int| 0 <= i < before.len() ==> !(#[trigger] before[i]).is_borrowed(),
        0 <= user < before.len(),
        0 <= used < before.len(),
        segment_refs(before[user]).contains(before[used].name()),
        after[used].is_borrowed(),
    ensures
        after[user].is_borrowed(),
{
    let r = before[used].name();
    assert(after[used] == borrow_segment(before[used], d));
    assert(segment_borrows(before[used], d));
    assert(d.contains(r));
    assert(after[user] == borrow_segment(before[user], d));
    lemma_refs_borrow(before[user], d, r);
}

/// Reference-capability propagates along every chain of uses: where each
/// segment of a chain mentions the name of the next and the last is marked
/// reference-capable, the first is marked too. It holds of segments that
/// were all unmarked before the pass.
pub proof fn lemma_borrow_reaches_transitive_users(
    before: Seq<RustSegmentView>,
    after: Seq<RustSegmentView>,
    d: Set<Seq<char>>,
    chain: Seq<int>,
    from: int,
)
    requires
        borrow_solution(before, after, d),
        forall|i: int| 0 <= i < before.len() ==> !(#[trigger] before[i]).is_borrowed(),
        0 <= from < chain.len(),
        forall|k: int| 0 <= k < chain.len() ==> 0 <= #[trigger] chain[k] < before.len(),
        forall|k: int|
            0 <= k < chain.len() - 1 ==> segment_refs(before[#[trigger] chain[k]]).contains(
                before[chain[k + 1]].name(),
            ),
        after[chain[chain.len() - 1]].is_borrowed(),
    ensures
        after[chain[from]].is_borrowed(),
    decreases chain.len() - from,
{
    if from < chain.len() - 1 {
        lemma_borrow_reaches_transitive_users(before, after, d, chain, from + 1);
        lemma_borrow_reaches_users(before, after, d, chain[from], chain[from + 1]);
    }
}

proof fn lemma_solutions_agree(
    before: Seq<RustSegmentView>,
    d1: Set<Seq<char>>,
    d2: Set<Seq<char>>,
    order: Seq<usize>,
    p: int,
)
    requires
        forall|name: Seq<char>| #[trigger]
            d1.contains(name) <==> exists|i: int|
                0 <= i < before.len() && (#[trigger] before[i]).name() == name && segment_borrows(
                    before[i],
                    d1,
                ),
        forall|name: Seq<char>| #[trigger]
            d2.contains(name) <==> exists|i: int|
                0 <= i < before.len() && (#[trigger] before[i]).name() == name && segment_borrows(
                    before[i],
                    d2,
                ),
        unique_names(before),
        before.len() <= usize::MAX,
        deps_graph(before).is_topological_order(order),
        0 <= p <= order.len(),
    ensures
        forall|q: int|
            0 <= q < p ==> d1.contains(before[(#[trigger] order[q]) as int].name()) == d2.contains(
                before[order[q] as int].name(),
            ),
        forall|q: int|
            0 <= q < p ==> segment_borrows(before[(#[trigger] order[q]) as int], d1)
                == segment_borrows(before[order[q] as int], d2),
    decreases p,
{
    if p > 0 {
        lemma_solutions_agree(before, d1, d2, order, p - 1);
        let g = deps_graph(before);
        lemma_deps_upto(before, before.len() as int);
        lemma_topological_order_lists_nodes(g, order);
        let j = order[p - 1];
        assert(g.nodes.contains(j));
        let seg = before[j as int];
        assert forall|r: Seq<char>| segment_refs(seg).contains(r) implies (d1.contains(r) <==> d2.contains(
            r,
        )) by {
            if d1.contains(r) || d2.contains(r) {
                let i = if d1.contains(r) {
                    choose|i: int|
                        0 <= i < before.len() && (#[trigger] before[i]).name() == r && segment_borrows(
                            before[i],
                            d1,
                        )
                } else {
                    choose|i: int|
                        0 <= i < before.len() && (#[trigger] before[i]).name() == r && segment_borrows(
                            before[i],
                            d2,
                        )
                };
                lemma_resolve_unique(before, i);
                assert(g.has_edge(resolve(before, r)->0 as usize, j));
                assert(g.nodes.contains(i as usize));
                assert(order.contains(i as usize));
                let q = choose|q: int| 0 <= q < order.len() && order[q] == i as usize;
                assert(g.has_edge(order[q], order[p - 1]));
                assert(q < p - 1);
                assert(segment_borrows(before[order[q] as int], d1) == segment_borrows(
                    before[order[q] as int],
                    d2,
                ));
                assert(d1.contains(before[order[q] as int].name()) == d2.contains(
                    before[order[q] as int].name(),
                ));
            }
        }
        lemma_borrow_agree_segment(seg, d1, d2);
        let name = seg.name();
        if segment_borrows(seg, d1) {
            assert(before[j as int].name() == name && segment_borrows(before[j as int], d1));
            assert(before[j as int].name() == name && segment_borrows(before[j as int], d2));
        } else {
            if d1.contains(name) {
                let i = choose|i: int|
                    0 <= i < before.len() && (#[trigger] before[i]).name() == name
                        && segment_borrows(before[i], d1);
                assert(i == j);
            }
            if d2.contains(name) {
                let i = choose|i: int|
                    0 <= i < before.len() && (#[trigger] before[i]).name() == name
                        && segment_borrows(before[i], d2);
                assert(i == j);
            }
        }
    }
}

/// On segments with distinct names whose uses form no cycle, the marking
/// is determined: any two outcomes of the pass are the same.
pub proof fn lemma_borrow_solution_unique(
    before: Seq<RustSegmentView>,
    after1: Seq<RustSegmentView>,
    d1: Set<Seq<char>>,
    after2: Seq<RustSegmentView>,
    d2: Set<Seq<char>>,
    order: Seq<usize>,
)
    requires
        borrow_solution(before, after1, d1),
        borrow_solution(before, after2, d2),
        unique_names(before),
        before.len() <= usize::MAX,
        deps_graph(before).is_topological_order(order),
    ensures
        d1 == d2,
        after1 == after2,
{
    let g = deps_graph(before);
    lemma_deps_upto(before, before.len() as int);
    lemma_topological_order_lists_nodes(g, order);
    lemma_solutions_agree(before, d1, d2, order, order.len() as int);
    assert forall|name: Seq<char>| d1.contains(name) == d2.contains(name) by {
        if d1.contains(name) || d2.contains(name) {
            let i = if d1.contains(name) {
                choose|i: int|
                    0 <= i < before.len() && (#[trigger] before[i]).name() == name
                        && segment_borrows(before[i], d1)
            } else {
                choose|i: int|
                    0 <= i < before.len() && (#[trigger] before[i]).name() == name
                        && segment_borrows(before[i], d2)
            };
            assert(g.nodes.contains(i as usize));
            assert(order.contains(i as usize));
            let q = choose|q: int| 0 <= q < order.len() && order[q] == i as usize;
            assert(d1.contains(before[order[q] as int].name()) == d2.contains(
                before[order[q] as int].name(),
            ));
        }
    }
    assert(d1 =~= d2);
    assert(after1 =~= after2);
}

/// A segment that mentions a name in `d` borrows.
pub proof fn lemma_refs_borrow(seg: RustSegmentView, d: Set<Seq<char>>, r: Seq<char>)
    requires
        segment_refs(seg).contains(r),
        d.contains(r),
    ensures
        segment_borrows(seg, d),
{
    match seg {
        RustSegmentView::Struct(s) => {
            let i = lemma_member_of_ref(s.member, r);
            lemma_named_borrows(s.member[i].ty.ty, d, r);
        },
        RustSegmentView::Enum(e) => {
            let i = lemma_variant_of_ref(e.member, r);
            lemma_named_borrows(e.member[i].kind.wrapped()->0, d, r);
        },
        RustSegmentView::Alias(a) => {
            lemma_named_borrows(a.ty, d, r);
        },
    }
}

proof fn lemma_member_of_ref(members: Seq<RustStructMemberView>, r: Seq<char>) -> (i: int)
    requires
        crate::ir::deps::member_refs(members).contains(r),
    ensures
        0 <= i < members.len(),
        named_in(members[i].ty.ty).contains(r),
    decreases members.len(),
{
    let init = crate::ir::deps::member_refs(members.drop_last());
    let last = named_in(members.last().ty.ty);
    let k = choose|k: int| 0 <= k < (init + last).len() && (init + last)[k] == r;
    if k < init.len() {
        assert(init[k] == r);
        lemma_member_of_ref(members.drop_last(), r)
    } else {
        assert(last[k - init.len()] == r);
        members.len() - 1
    }
}

proof fn lemma_variant_of_ref(members: Seq<RustEnumMemberView>, r: Seq<char>) -> (i: int)
    requires
        crate::ir::deps::variant_refs(members).contains(r),
    ensures
        0 <= i < members.len(),
        members[i].kind.wrapped() is Some,
        named_in(members[i].kind.wrapped()->0).contains(r),
    decreases members.len(),
{
    let init = crate::ir::deps::variant_refs(members.drop_last());
    let last = variant_named(members.last());
    let k = choose|k: int| 0 <= k < (init + last).len() && (init + last)[k] == r;
    if k < init.len() {
        assert(init[k] == r);
        lemma_variant_of_ref(members.drop_last(), r)
    } else {
        assert(last[k - init.len()] == r);
        members.len() - 1
    }
}

} // verus!
