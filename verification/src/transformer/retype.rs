//! Replaces references to named types by the types that a map gives them.

use vstd::prelude::*;
use crate::ir::{
    RustEnumMember, RustEnumMemberKind, RustEnumMemberKindView, RustEnumMemberView, RustEnumView,
    RustAliasView, RustMemberTypeView, RustSegment, RustSegmentView, RustStructMember,
    RustStructMemberView, RustStructView, RustType, RustTypeView, segments_view,
};
use crate::strmap::StringMap;

verus! {

/// The views of the types in a map.
pub open spec fn type_map_view(m: Map<Seq<char>, RustType>) -> Map<Seq<char>, RustTypeView> {
    m.map_values(|t: RustType| t@)
}

/// The type with every named type that `map` knows replaced by what the map
/// gives, inside arrays and maps too. What is put in is not looked at
/// again.
pub open spec fn retype_type(ty: RustTypeView, map: Map<Seq<char>, RustTypeView>) -> RustTypeView
    decreases ty,
{
    match ty {
        RustTypeView::Array(t) => RustTypeView::Array(Box::new(retype_type(*t, map))),
        RustTypeView::Dict(k, v) => RustTypeView::Dict(
            Box::new(retype_type(*k, map)),
            Box::new(retype_type(*v, map)),
        ),
        RustTypeView::Custom(n) => if map.contains_key(n.name) {
            map[n.name]
        } else {
            ty
        },
        _ => ty,
    }
}

pub open spec fn retype_member(m: RustStructMemberView, map: Map<Seq<char>, RustTypeView>) -> RustStructMemberView {
    RustStructMemberView {
        ty: RustMemberTypeView { ty: retype_type(m.ty.ty, map), is_optional: m.ty.is_optional },
        ..m
    }
}

pub open spec fn retype_kind(k: RustEnumMemberKindView, map: Map<Seq<char>, RustTypeView>) -> RustEnumMemberKindView {
    match k {
        RustEnumMemberKindView::Nullary(_) => k,
        RustEnumMemberKindView::Unary(t) => RustEnumMemberKindView::Unary(retype_type(t, map)),
        RustEnumMemberKindView::UnaryNamed { variant_name, ty } => RustEnumMemberKindView::UnaryNamed {
            variant_name,
            ty: retype_type(ty, map),
        },
    }
}

pub open spec fn retype_variant(v: RustEnumMemberView, map: Map<Seq<char>, RustTypeView>) -> RustEnumMemberView {
    RustEnumMemberView { kind: retype_kind(v.kind, map), ..v }
}

/// The segment with every type expression rewritten by `retype_type`.
pub open spec fn retype_segment(seg: RustSegmentView, map: Map<Seq<char>, RustTypeView>) -> RustSegmentView {
    match seg {
        RustSegmentView::Struct(s) => RustSegmentView::Struct(
            RustStructView { member: s.member.map_values(|m| retype_member(m, map)), ..s },
        ),
        RustSegmentView::Enum(e) => RustSegmentView::Enum(
            RustEnumView { member: e.member.map_values(|v| retype_variant(v, map)), ..e },
        ),
        RustSegmentView::Alias(a) => RustSegmentView::Alias(
            RustAliasView { ty: retype_type(a.ty, map), ..a },
        ),
    }
}

fn retype_custom(ty: &mut RustType, map: &StringMap<RustType>)
    requires
        map.wf(),
    ensures
        final(ty)@ == retype_type(old(ty)@, type_map_view(map@)),
    decreases *old(ty),
{
    match ty {
        RustType::Array(t) => {
            retype_custom(&mut **t, map);
        },
        RustType::Dict(k, v) => {
            retype_custom(&mut **k, map);
            retype_custom(&mut **v, map);
        },
        RustType::Custom(n) => {
            if let Some(t) = map.get(n.name.as_str()) {
                *ty = t.clone();
            }
        },
        RustType::String { .. }
        | RustType::Number
        | RustType::Boolean
        | RustType::Unit
        | RustType::Unknown
        | RustType::UnknownLiteral
        | RustType::UnknownIntersection => (),
    }
}

fn retype_members(members: &mut Vec<RustStructMember>, map: &StringMap<RustType>)
    requires
        map.wf(),
    ensures
        final(members)@.map_values(|m: RustStructMember| m@) == old(members)@.map_values(
            |m: RustStructMember| m@,
        ).map_values(|m| retype_member(m, type_map_view(map@))),
{
    let ghost tm = type_map_view(map@);
    let mut i: usize = 0;
    while i < members.len()
        invariant
            i <= members.len(),
            members.len() == old(members).len(),
            map.wf(),
            tm == type_map_view(map@),
            forall|j: int| 0 <= j < i ==> (#[trigger] members@[j])@ == retype_member(old(members)@[j]@, tm),
            forall|j: int| i <= j < members.len() ==> (#[trigger] members@[j]) == old(members)@[j],
        decreases members.len() - i,
    {
        retype_custom(&mut members[i].ty.ty, map);
        i += 1;
    }
    assert(members@.map_values(|m: RustStructMember| m@) =~= old(members)@.map_values(
        |m: RustStructMember| m@,
    ).map_values(|m| retype_member(m, tm)));
}

fn retype_variants(members: &mut Vec<RustEnumMember>, map: &StringMap<RustType>)
    requires
        map.wf(),
    ensures
        final(members)@.map_values(|m: RustEnumMember| m@) == old(members)@.map_values(
            |m: RustEnumMember| m@,
        ).map_values(|m| retype_variant(m, type_map_view(map@))),
{
    let ghost tm = type_map_view(map@);
    let mut i: usize = 0;
    while i < members.len()
        invariant
            i <= members.len(),
            members.len() == old(members).len(),
            map.wf(),
            tm == type_map_view(map@),
            forall|j: int| 0 <= j < i ==> (#[trigger] members@[j])@ == retype_variant(old(members)@[j]@, tm),
            forall|j: int| i <= j < members.len() ==> (#[trigger] members@[j]) == old(members)@[j],
        decreases members.len() - i,
    {
        match &mut members[i].kind {
            RustEnumMemberKind::Nullary(..) => (),
            RustEnumMemberKind::Unary(u) => {
                retype_custom(u, map);
            },
            RustEnumMemberKind::UnaryNamed { ty, .. } => {
                retype_custom(ty, map);
            },
        }
        i += 1;
    }
    assert(members@.map_values(|m: RustEnumMember| m@) =~= old(members)@.map_values(
        |m: RustEnumMember| m@,
    ).map_values(|m| retype_variant(m, tm)));
}

/// Rewrites one segment.
pub fn retype_one(segment: &mut RustSegment, map: &StringMap<RustType>)
    requires
        map.wf(),
    ensures
        final(segment)@ == retype_segment(old(segment)@, type_map_view(map@)),
{
    match segment {
        RustSegment::Struct(s) => {
            retype_members(&mut s.member, map);
        },
        RustSegment::Enum(e) => {
            retype_variants(&mut e.member, map);
        },
        RustSegment::Alias(a) => {
            retype_custom(&mut a.ty, map);
        },
    }
}

/// Rewrites every type expression of every segment: a reference to a name
/// that `map` knows becomes the type that the map gives.
pub fn retype(segments: &mut Vec<RustSegment>, map: StringMap<RustType>)
    requires
        map.wf(),
    ensures
        segments_view(final(segments)@) == segments_view(old(segments)@).map_values(
            |s| retype_segment(s, type_map_view(map@)),
        ),
{
    let ghost tm = type_map_view(map@);
    let mut i: usize = 0;
    while i < segments.len()
        invariant
            i <= segments.len(),
            segments.len() == old(segments).len(),
            map.wf(),
            tm == type_map_view(map@),
            forall|j: int| 0 <= j < i ==> (#[trigger] segments@[j])@ == retype_segment(old(segments)@[j]@, tm),
            forall|j: int| i <= j < segments.len() ==> (#[trigger] segments@[j]) == old(segments)@[j],
        decreases segments.len() - i,
    {
        retype_one(&mut segments[i], &map);
        i += 1;
    }
    assert(segments_view(segments@) =~= segments_view(old(segments)@).map_values(
        |s| retype_segment(s, tm),
    ));
}

} // verus!
