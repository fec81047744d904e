//! Names for the anonymous types of a declaration: unions of string
//! literals become sum types, one per set of literals.

use vstd::prelude::*;
use crate::ir::{
    comment_view, segments_view, RustAlias, RustAliasView, RustComment, RustEnum, RustEnumMember,
    RustEnumMemberKind, RustEnumMemberKindView, RustEnumMemberView, RustEnumView, RustSegment,
    RustSegmentView, RustType, RustVariantAttr, RustVariantAttrs, SerdeVariantAttr,
    SerdeVariantAttrView, TypeName, TypeNameView,
};
use crate::lexical::strings_view;
use crate::text::{rename_to_valid_ident, valid_ident_of};
use super::context::{CtxView, TypeConvertContext};
use super::state::{custom, FrontendState, Fs, LiteralCache};

verus! {

/// The name that the cache holds for a set of literals.
pub open spec fn literal_lookup(cache: LiteralCache, key: Seq<Seq<char>>) -> Option<Seq<char>>
    decreases cache.len(),
{
    if cache.len() == 0 {
        None
    } else if cache.last().0 == key {
        Some(cache.last().1)
    } else {
        literal_lookup(cache.drop_last(), key)
    }
}

/// The variant that stands for a string literal: named by the identifier
/// made of the literal, and renamed to the literal where the two differ.
pub open spec fn literal_variant(v: Seq<char>) -> RustEnumMemberView {
    RustEnumMemberView {
        attr: if v != valid_ident_of(v) {
            seq![SerdeVariantAttrView::Rename(v)]
        } else {
            Seq::empty()
        },
        kind: RustEnumMemberKindView::Nullary(valid_ident_of(v)),
    }
}

/// The sum type of the given string literals.
pub open spec fn literal_enum(name: Seq<char>, comment: Option<Seq<char>>, vs: Seq<Seq<char>>) -> RustEnumView {
    RustEnumView {
        attr: Seq::empty(),
        name,
        comment,
        is_borrowed: false,
        member: vs.map_values(|v: Seq<char>| literal_variant(v)),
    }
}

/// An alias of an owned named type.
pub open spec fn alias_of(name: Seq<char>, comment: Option<Seq<char>>, target: Seq<char>) -> RustAliasView {
    RustAliasView { name, is_borrowed: false, comment, ty: custom(target) }
}

/// What naming a union of string literals does: the first union of a set
/// of literals becomes a sum type and enters the cache; every later union
/// of the same set becomes an alias of that sum type.
pub open spec fn spec_string_literal_union(
    st: Fs,
    variants: Seq<Seq<char>>,
    comment: Option<Seq<char>>,
    ctx: CtxView,
) -> (Fs, CtxView, Seq<char>) {
    let (ctx2, name) = ctx.create_ident();
    match literal_lookup(st.literal_map, variants) {
        Some(known) => (st.push(RustSegmentView::Alias(alias_of(name, comment, known))), ctx2, name),
        None => (
            Fs {
                segments: st.segments.push(RustSegmentView::Enum(literal_enum(name, comment, variants))),
                literal_map: st.literal_map.push((variants, name)),
                lits: st.lits,
            },
            ctx2,
            name,
        ),
    }
}

fn strings_eq(a: &Vec<String>, b: &Vec<String>) -> (r: bool)
    ensures
        r == (strings_view(a@) == strings_view(b@)),
{
    if a.len() != b.len() {
        assert(strings_view(a@).len() != strings_view(b@).len());
        return false;
    }
    let mut i: usize = 0;
    while i < a.len()
        invariant
            i <= a.len(),
            a.len() == b.len(),
            forall|j: int| 0 <= j < i ==> a@[j]@ == b@[j]@,
        decreases a.len() - i,
    {
        if a[i] != b[i] {
            assert(strings_view(a@)[i as int] != strings_view(b@)[i as int]);
            return false;
        }
        i += 1;
    }
    assert(strings_view(a@) =~= strings_view(b@));
    true
}

fn lookup<'a>(cache: &'a Vec<(Vec<String>, String)>, key: &Vec<String>) -> (r: Option<&'a String>)
    ensures
        match r {
            Some(s) => literal_lookup(
                cache@.map_values(|e: (Vec<String>, String)| (strings_view(e.0@), e.1@)),
                strings_view(key@),
            ) == Some(s@),
            None => literal_lookup(
                cache@.map_values(|e: (Vec<String>, String)| (strings_view(e.0@), e.1@)),
                strings_view(key@),
            ) is None,
        },
{
    let ghost view = cache@.map_values(|e: (Vec<String>, String)| (strings_view(e.0@), e.1@));
    let mut i = cache.len();
    assert(view.take(i as int) =~= view);
    while i > 0
        invariant
            i <= cache.len(),
            view == cache@.map_values(|e: (Vec<String>, String)| (strings_view(e.0@), e.1@)),
            literal_lookup(view, strings_view(key@)) == literal_lookup(
                view.take(i as int),
                strings_view(key@),
            ),
        decreases i,
    {
        i -= 1;
        proof {
            assert(view.take(i + 1).drop_last() =~= view.take(i as int));
            assert(view.take(i + 1).last() == view[i as int]);
        }
        if strings_eq(&cache[i].0, key) {
            return Some(&cache[i].1);
        }
    }
    None
}

fn create_alias(st: &mut FrontendState, comment: Option<RustComment>, name: &String, old_name: String)
    ensures
        segments_view(final(st).segments@) == segments_view(old(st).segments@).push(
            RustSegmentView::Alias(alias_of(name@, comment_view(comment), old_name@)),
        ),
        final(st).name_types == old(st).name_types,
{
    let seg = RustSegment::Alias(
        RustAlias {
            name: name.clone(),
            is_borrowed: false,
            comment,
            ty: RustType::Custom(TypeName::new(old_name)),
        },
    );
    st.add_segment(seg);
}

fn create_enum(st: &mut FrontendState, comment: Option<RustComment>, name: &String, vs: &Vec<String>)
    ensures
        segments_view(final(st).segments@) == segments_view(old(st).segments@).push(
            RustSegmentView::Enum(literal_enum(name@, comment_view(comment), strings_view(vs@))),
        ),
        final(st).name_types == old(st).name_types,
{
    let ghost target = strings_view(vs@).map_values(|v: Seq<char>| literal_variant(v));
    let mut members: Vec<RustEnumMember> = Vec::new();
    let mut i: usize = 0;
    while i < vs.len()
        invariant
            i <= vs.len(),
            target == strings_view(vs@).map_values(|v: Seq<char>| literal_variant(v)),
            members@.map_values(|m: RustEnumMember| m@) == target.take(i as int),
        decreases vs.len() - i,
    {
        let v = &vs[i];
        let renamed = rename_to_valid_ident(v.as_str());
        let mut attr = RustVariantAttrs::new();
        if *v != renamed {
            attr.add_attr(RustVariantAttr::Serde(SerdeVariantAttr::Rename(v.clone())));
            assert(attr@ =~= seq![SerdeVariantAttrView::Rename(v@)]);
        } else {
            assert(attr@ =~= Seq::<SerdeVariantAttrView>::empty());
        }
        let member = RustEnumMember { attr, kind: RustEnumMemberKind::Nullary(renamed) };
        let ghost before = members@.map_values(|m: RustEnumMember| m@);
        members.push(member);
        proof {
            assert(members@.map_values(|m: RustEnumMember| m@) =~= before.push(member@));
            assert(target.take(i + 1) =~= target.take(i as int).push(target[i as int]));
        }
        i += 1;
    }
    assert(target.take(vs.len() as int) =~= target);
    let e = RustEnum::from_members(name.clone(), comment, members);
    assert(e.attr@ =~= Seq::empty());
    st.add_segment(RustSegment::Enum(e));
}

/// Names a union of string literals, given in sorted order: makes a sum
/// type for a set of literals that is new, and an alias for one that has
/// its sum type already.
pub fn string_literal_union(
    st: &mut FrontendState,
    variants: Vec<String>,
    comment: Option<RustComment>,
    path: &mut TypeConvertContext,
) -> (r: TypeName)
    ensures
        ({
            let out = spec_string_literal_union(
                Fs {
                    segments: segments_view(old(st).segments@),
                    literal_map: old(st).name_types@,
                    lits: Map::empty(),
                },
                strings_view(variants@),
                comment_view(comment),
                old(path)@,
            );
            &&& segments_view(final(st).segments@) == out.0.segments
            &&& final(st).name_types@ == out.0.literal_map
            &&& final(path)@ == out.1
            &&& r@ == TypeNameView { name: out.2, is_borrowed: false }
        }),
{
    let name = path.create_ident();
    let found = match lookup(&st.name_types.literal_map, &variants) {
        Some(s) => Some(s.clone()),
        None => None,
    };
    match found {
        Some(s) => {
            create_alias(st, comment, &name, s);
        },
        None => {
            create_enum(st, comment, &name, &variants);
            let ghost cache = st.name_types@;
            st.name_types.literal_map.push((variants, name.clone()));
            assert(st.name_types@ =~= cache.push((strings_view(variants@), name@)));
        },
    }
    TypeName::new(name)
}

/// The first union of a set of literals enters the cache under its own
/// name, whatever the order in which the literals are written.
pub proof fn lemma_literal_union_cached(
    st: Fs,
    first: Seq<Seq<char>>,
    second: Seq<Seq<char>>,
    comment: Option<Seq<char>>,
    ctx: CtxView,
)
    requires
        first.to_multiset() == second.to_multiset(),
        literal_lookup(st.literal_map, crate::lexical::sorted_strings(first)) is None,
    ensures
        ({
            let out = spec_string_literal_union(st, crate::lexical::sorted_strings(first), comment, ctx);
            &&& out.0.segments == st.segments.push(
                RustSegmentView::Enum(literal_enum(out.2, comment, crate::lexical::sorted_strings(first))),
            )
            &&& literal_lookup(out.0.literal_map, crate::lexical::sorted_strings(second)) == Some(out.2)
        }),
{
    crate::lexical::lemma_sorted_permutation(first, second);
    let out = spec_string_literal_union(st, crate::lexical::sorted_strings(first), comment, ctx);
    assert(out.0.literal_map.last() == (crate::lexical::sorted_strings(first), out.2));
}

/// A union of a set of literals that is in the cache makes an alias of the
/// cached sum type, and no sum type.
pub proof fn lemma_literal_union_aliased(
    st: Fs,
    variants: Seq<Seq<char>>,
    comment: Option<Seq<char>>,
    ctx: CtxView,
    known: Seq<char>,
)
    requires
        literal_lookup(st.literal_map, variants) == Some(known),
    ensures
        ({
            let out = spec_string_literal_union(st, variants, comment, ctx);
            &&& out.0.segments == st.segments.push(RustSegmentView::Alias(alias_of(out.2, comment, known)))
            &&& out.0.literal_map == st.literal_map
        }),
{
}

} // verus!
