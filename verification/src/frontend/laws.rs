//! What holds of the cache of literal unions throughout a conversion: a
//! set of literals that has its sum type keeps it, so that every later
//! union of the same literals becomes an alias.

use vstd::prelude::*;
use crate::ast::{
    element_depth, elements_depth, lemma_elements_depth, lemma_types_depth, type_depth, types_depth,
    Decl, TsIndexSignature, TsPropertySignature, TsType, TsTypeElement,
};
use crate::ir::RustSegmentView;
use crate::lexical::{lemma_sorted_permutation, sorted_strings};
use super::context::CtxView;
use super::declarations::{spec_decl, spec_interface_members, spec_module};
use super::merge_union_type_lits::{lemma_merge_depth, lists_depth, spec_merge};
use super::model::{
    all_lit_str, all_type_lit, lemma_lit_members_depth, lemma_non_null, lit_members, non_null,
    spec_diff_structs, spec_index_signature, spec_members, spec_prop_signature, spec_type_literal,
    spec_type_to_rs, spec_union_or_intersection, spec_variants,
};
use super::name_types::{alias_of, literal_lookup, spec_string_literal_union};
use super::state::{Fs, LiteralCache};

verus! {

/// No set of literals is cached twice.
pub open spec fn keys_distinct(cache: LiteralCache) -> bool {
    forall|i: int, j: int| 0 <= i < j < cache.len() ==> (#[trigger] cache[i]).0 != (#[trigger] cache[j]).0
}

/// `b` holds the entries of `a`, in order, and then maybe more.
pub open spec fn is_prefix(a: LiteralCache, b: LiteralCache) -> bool {
    a.len() <= b.len() && forall|i: int| 0 <= i < a.len() ==> #[trigger] a[i] == b[i]
}

/// From state `a` to state `b` the cache has only gained entries, and has
/// gained no set of literals that it had.
pub open spec fn cache_grows(a: Fs, b: Fs) -> bool {
    is_prefix(a.literal_map, b.literal_map) && (keys_distinct(a.literal_map) ==> keys_distinct(
        b.literal_map,
    ))
}

/// What a lookup finds is an entry, and what it does not find is no key.
pub proof fn lemma_lookup(cache: LiteralCache, key: Seq<Seq<char>>)
    ensures
        match literal_lookup(cache, key) {
            Some(name) => exists|i: int| 0 <= i < cache.len() && #[trigger] cache[i] == (key, name),
            None => forall|i: int| 0 <= i < cache.len() ==> (#[trigger] cache[i]).0 != key,
        },
    decreases cache.len(),
{
    if cache.len() > 0 {
        let init = cache.drop_last();
        lemma_lookup(init, key);
        if cache.last().0 == key {
            assert(cache[cache.len() - 1] == (key, cache.last().1));
        } else {
            match literal_lookup(init, key) {
                Some(name) => {
                    let i = choose|i: int| 0 <= i < init.len() && #[trigger] init[i] == (key, name);
                    assert(cache[i] == (key, name));
                },
                None => {
                    assert forall|i: int| 0 <= i < cache.len() implies (#[trigger] cache[i]).0 != key by {
                        if i < cache.len() - 1 {
                            assert(init[i] == cache[i]);
                        }
                    }
                },
            }
        }
    }
}

/// In a cache without repeated keys, the entry of a key is what a lookup
/// finds.
pub proof fn lemma_lookup_entry(cache: LiteralCache, i: int)
    requires
        keys_distinct(cache),
        0 <= i < cache.len(),
    ensures
        literal_lookup(cache, cache[i].0) == Some(cache[i].1),
    decreases cache.len(),
{
    if i < cache.len() - 1 {
        let init = cache.drop_last();
        assert(cache[i].0 != cache[cache.len() - 1].0);
        assert forall|a: int, b: int| 0 <= a < b < init.len() implies (#[trigger] init[a]).0 != (
        #[trigger] init[b]).0 by {
            assert(init[a] == cache[a] && init[b] == cache[b]);
        }
        lemma_lookup_entry(init, i);
        assert(init[i] == cache[i]);
    }
}

/// A name that the cache holds for a set of literals stays its name as the
/// cache grows.
pub proof fn lemma_lookup_persists(a: Fs, b: Fs, key: Seq<Seq<char>>)
    requires
        cache_grows(a, b),
        keys_distinct(a.literal_map),
        literal_lookup(a.literal_map, key) is Some,
    ensures
        literal_lookup(b.literal_map, key) == literal_lookup(a.literal_map, key),
{
    lemma_lookup(a.literal_map, key);
    let name = literal_lookup(a.literal_map, key)->0;
    let i = choose|i: int| 0 <= i < a.literal_map.len() && #[trigger] a.literal_map[i] == (key, name);
    assert(b.literal_map[i] == a.literal_map[i]);
    lemma_lookup_entry(b.literal_map, i);
}

pub proof fn lemma_grows_trans(a: Fs, b: Fs, c: Fs)
    requires
        cache_grows(a, b),
        cache_grows(b, c),
    ensures
        cache_grows(a, c),
{
    assert forall|i: int| 0 <= i < a.literal_map.len() implies #[trigger] a.literal_map[i]
        == c.literal_map[i] by {
        assert(a.literal_map[i] == b.literal_map[i]);
        assert(b.literal_map[i] == c.literal_map[i]);
    }
}

/// Naming a union of string literals lets the cache grow.
pub proof fn lemma_literal_union_grows(
    st: Fs,
    variants: Seq<Seq<char>>,
    comment: Option<Seq<char>>,
    ctx: CtxView,
)
    ensures
        cache_grows(st, spec_string_literal_union(st, variants, comment, ctx).0),
{
    lemma_lookup(st.literal_map, variants);
    let out = spec_string_literal_union(st, variants, comment, ctx).0;
    if literal_lookup(st.literal_map, variants) is None && keys_distinct(st.literal_map) {
        assert forall|i: int, j: int| 0 <= i < j < out.literal_map.len() implies (
        #[trigger] out.literal_map[i]).0 != (#[trigger] out.literal_map[j]).0 by {
            if j < st.literal_map.len() {
                assert(out.literal_map[i] == st.literal_map[i]);
                assert(out.literal_map[j] == st.literal_map[j]);
            } else {
                assert(out.literal_map[i] == st.literal_map[i]);
            }
        }
    }
}

/// Converting a type lets the cache grow.
pub proof fn lemma_type_grows(st: Fs, ctx: Option<CtxView>, typ: TsType, comment: Option<Seq<char>>)
    ensures
        spec_type_to_rs(st, ctx, typ, comment) matches Ok(out) ==> cache_grows(st, out.st),
    decreases type_depth(typ), 1nat, 0nat,
{
    match typ {
        TsType::Parenthesized(t) => {
            lemma_type_grows(st, ctx, *t, comment);
        },
        TsType::Union(_) | TsType::Intersection(_) => {
            lemma_union_grows(st, ctx, typ, comment);
        },
        TsType::Array(elem) => {
            lemma_type_grows(st, ctx, *elem, comment);
        },
        TsType::TypeLit(members) => {
            if ctx is Some {
                lemma_type_literal_grows(st, ctx->0, members@, comment);
            }
        },
        _ => {},
    }
}

/// Converting a union or an intersection lets the cache grow.
pub proof fn lemma_union_grows(st: Fs, ctx: Option<CtxView>, typ: TsType, comment: Option<Seq<char>>)
    ensures
        spec_union_or_intersection(st, ctx, typ, comment) matches Ok(out) ==> cache_grows(st, out.st),
    decreases type_depth(typ), 0nat, 0nat,
{
    match typ {
        TsType::Union(types) => {
            let nn = non_null(types@);
            lemma_non_null(types@);
            if nn.len() > 0 {
                lemma_types_depth(nn, 0);
                if all_type_lit(nn) {
                    lemma_lit_members_depth(nn);
                    lemma_merge_depth(lit_members(nn));
                }
            }
            if nn.len() == 0 {
            } else if nn.len() == 1 {
                lemma_type_grows(st, ctx, nn[0], comment);
            } else if all_lit_str(nn) {
                if ctx is Some {
                    lemma_literal_union_grows(
                        st,
                        sorted_strings(super::model::lit_values(nn)),
                        comment,
                        ctx->0,
                    );
                }
            } else if all_type_lit(nn) {
                if ctx is Some {
                    let merged = spec_merge(lit_members(nn));
                    lemma_type_literal_grows(st, ctx->0, merged.intersection, None);
                    match spec_type_literal(st, ctx->0, merged.intersection, None) {
                        Ok(base) => {
                            lemma_diffs_grow(base.st, base.ctx, merged.diffs);
                            match spec_diff_structs(base.st, base.ctx, merged.diffs) {
                                Ok(d) => {
                                    lemma_grows_trans(st, base.st, d.st);
                                },
                                Err(_) => {},
                            }
                        },
                        Err(_) => {},
                    }
                }
            } else {
                if ctx is Some {
                    let made = ctx->0.create_ident();
                    lemma_variants_grow(st, Some(made.0), nn);
                }
            }
        },
        TsType::Intersection(types) => {
            if types.len() == 2 && types[0] is TypeRef && types[1] is TypeLit {
                lemma_types_depth(types@, 1);
                if ctx is Some {
                    lemma_type_literal_grows(st, ctx->0, types[1]->TypeLit_0@, None);
                }
            }
        },
        _ => {},
    }
}

pub proof fn lemma_variants_grow(st: Fs, ctx: Option<CtxView>, types: Seq<TsType>)
    ensures
        spec_variants(st, ctx, types) matches Ok(out) ==> cache_grows(st, out.st),
    decreases types_depth(types), 5nat, types.len(),
{
    if types.len() > 0 {
        lemma_variants_grow(st, ctx, types.drop_last());
        match spec_variants(st, ctx, types.drop_last()) {
            Ok(r) => {
                lemma_type_grows(r.st, r.ctx, types.last(), None);
                match spec_type_to_rs(r.st, r.ctx, types.last(), None) {
                    Ok(t) => {
                        lemma_grows_trans(st, r.st, t.st);
                    },
                    Err(_) => {},
                }
            },
            Err(_) => {},
        }
    }
}

pub proof fn lemma_diffs_grow(st: Fs, ctx: CtxView, diffs: Seq<Seq<TsTypeElement>>)
    ensures
        spec_diff_structs(st, ctx, diffs) matches Ok(out) ==> cache_grows(st, out.st),
    decreases lists_depth(diffs), 6nat, diffs.len(),
{
    if diffs.len() > 0 {
        lemma_diffs_grow(st, ctx, diffs.drop_last());
        match spec_diff_structs(st, ctx, diffs.drop_last()) {
            Ok(r) => {
                lemma_type_literal_grows(r.st, r.ctx, diffs.last(), None);
                match spec_type_literal(r.st, r.ctx, diffs.last(), None) {
                    Ok(lit) => {
                        lemma_grows_trans(st, r.st, lit.st);
                    },
                    Err(_) => {},
                }
            },
            Err(_) => {},
        }
    }
}

pub proof fn lemma_type_literal_grows(
    st: Fs,
    ctx: CtxView,
    members: Seq<TsTypeElement>,
    comment: Option<Seq<char>>,
)
    ensures
        spec_type_literal(st, ctx, members, comment) matches Ok(out) ==> cache_grows(st, out.st),
    decreases elements_depth(members), 3nat, 0nat,
{
    let made = ctx.create_ident();
    lemma_members_grow(st, made.0, made.1, members);
}

pub proof fn lemma_members_grow(st: Fs, ctx: CtxView, name: Seq<char>, members: Seq<TsTypeElement>)
    ensures
        spec_members(st, ctx, name, members) matches Ok(out) ==> cache_grows(st, out.st),
    decreases elements_depth(members), 2nat, members.len(),
{
    if members.len() > 0 {
        lemma_elements_depth(members, members.len() - 1);
        assert(element_depth(members.last()) <= elements_depth(members));
        lemma_members_grow(st, ctx, name, members.drop_last());
        match spec_members(st, ctx, name, members.drop_last()) {
            Ok(r) => match members.last() {
                TsTypeElement::Property(p) => {
                    lemma_prop_grows(p, r.st, ctx, name);
                    match spec_prop_signature(p, r.st, ctx, name) {
                        Ok(m) => {
                            lemma_grows_trans(st, r.st, m.st);
                        },
                        Err(_) => {},
                    }
                },
                TsTypeElement::Index(i) => {
                    lemma_index_grows(i, None, r.st, ctx);
                    match spec_index_signature(i, None, r.st, ctx) {
                        Ok(m) => {
                            lemma_grows_trans(st, r.st, m.st);
                        },
                        Err(_) => {},
                    }
                },
                TsTypeElement::Other => {},
            },
            Err(_) => {},
        }
    }
}

pub proof fn lemma_prop_grows(p: TsPropertySignature, st: Fs, ctx: CtxView, name: Seq<char>)
    ensures
        spec_prop_signature(p, st, ctx, name) matches Ok(out) ==> cache_grows(st, out.st),
    decreases 1 + type_depth(p.type_ann), 1nat, 0nat,
{
    let pkey = match super::model::reserved_rename(p.key@) {
        Some(r) => r,
        None => p.key@,
    };
    lemma_type_grows(st, Some(ctx.projected(pkey)), p.type_ann, None);
}

pub proof fn lemma_index_grows(i: TsIndexSignature, comment: Option<Seq<char>>, st: Fs, ctx: CtxView)
    ensures
        spec_index_signature(i, comment, st, ctx) matches Ok(out) ==> cache_grows(st, out.st),
    decreases 1 + if type_depth(i.param_type) >= type_depth(i.type_ann) {
        type_depth(i.param_type)
    } else {
        type_depth(i.type_ann)
    }, 1nat, 0nat,
{
    lemma_type_grows(st, Some(ctx), i.param_type, None);
    match spec_type_to_rs(st, Some(ctx), i.param_type, None) {
        Ok(k) => {
            lemma_type_grows(k.st, k.ctx, i.type_ann, None);
            match spec_type_to_rs(k.st, k.ctx, i.type_ann, None) {
                Ok(v) => {
                    lemma_grows_trans(st, k.st, v.st);
                },
                Err(_) => {},
            }
        },
        Err(_) => {},
    }
}

proof fn lemma_interface_members_grow(st: Fs, ctx: CtxView, name: Seq<char>, body: Seq<TsTypeElement>)
    ensures
        spec_interface_members(st, ctx, name, body) matches Ok(out) ==> cache_grows(st, out.st),
    decreases body.len(),
{
    if body.len() > 0 {
        lemma_interface_members_grow(st, ctx, name, body.drop_last());
        match spec_interface_members(st, ctx, name, body.drop_last()) {
            Ok(r) => match body.last() {
                TsTypeElement::Property(p) => {
                    lemma_prop_grows(p, r.st, ctx, name);
                    match spec_prop_signature(p, r.st, ctx, name) {
                        Ok(m) => {
                            lemma_grows_trans(st, r.st, m.st);
                        },
                        Err(_) => {},
                    }
                },
                _ => {},
            },
            Err(_) => {},
        }
    }
}

/// Converting a declaration lets the cache grow.
pub proof fn lemma_decl_grows(st: Fs, decl: Decl)
    ensures
        spec_decl(st, decl) matches Ok(out) ==> cache_grows(st, out),
{
    match decl {
        Decl::Interface(i) => {
            lemma_interface_members_grow(st, CtxView::of_path(seq![i.name@]), i.name@, i.body@);
        },
        Decl::TypeAlias(a) => {
            match a.type_ann {
                TsType::Union(_) | TsType::Intersection(_) => {
                    lemma_union_grows(
                        st,
                        Some(super::declarations::granted_ctx(a.name@, true)),
                        a.type_ann,
                        super::model::stripped(crate::ast::opt_view(a.comment)),
                    );
                },
                TsType::Keyword(_) | TsType::Array(_) => {
                    lemma_type_grows(st, None, a.type_ann, None);
                },
                _ => {},
            }
        },
        Decl::Other => {},
    }
}

/// After the conversion of a module no set of literals is cached twice.
pub proof fn lemma_module_cache(decls: Seq<Decl>)
    ensures
        spec_module(decls) matches Ok(out) ==> keys_distinct(out.literal_map),
    decreases decls.len(),
{
    if decls.len() > 0 {
        lemma_module_cache(decls.drop_last());
        match spec_module(decls.drop_last()) {
            Ok(st) => {
                lemma_decl_grows(st, decls.last());
            },
            Err(_) => {},
        }
    }
}

/// No segment is marked reference-capable.
pub open spec fn unmarked(segs: Seq<RustSegmentView>) -> bool {
    forall|i: int| 0 <= i < segs.len() ==> !(#[trigger] segs[i]).is_borrowed()
}

/// A segment that is not marked, added to segments that are not marked,
/// leaves them unmarked.
pub proof fn lemma_unmarked_push(segs: Seq<RustSegmentView>, seg: RustSegmentView)
    requires
        unmarked(segs),
        !seg.is_borrowed(),
    ensures
        unmarked(segs.push(seg)),
{
    assert forall|i: int| 0 <= i < segs.push(seg).len() implies !(#[trigger] segs.push(seg)[i]).is_borrowed() by {
        if i < segs.len() {
            assert(segs.push(seg)[i] == segs[i]);
        }
    }
}

/// Naming a union of string literals marks nothing.
pub proof fn lemma_literal_union_unmarked(
    st: Fs,
    variants: Seq<Seq<char>>,
    comment: Option<Seq<char>>,
    ctx: CtxView,
)
    requires
        unmarked(st.segments),
    ensures
        unmarked(spec_string_literal_union(st, variants, comment, ctx).0.segments),
{
    let made = ctx.create_ident();
    match literal_lookup(st.literal_map, variants) {
        Some(known) => {
            lemma_unmarked_push(st.segments, RustSegmentView::Alias(alias_of(made.1, comment, known)));
        },
        None => {
            lemma_unmarked_push(
                st.segments,
                RustSegmentView::Enum(super::name_types::literal_enum(made.1, comment, variants)),
            );
        },
    }
}

/// Converting a type marks nothing.
pub proof fn lemma_type_unmarked(st: Fs, ctx: Option<CtxView>, typ: TsType, comment: Option<Seq<char>>)
    requires
        unmarked(st.segments),
    ensures
        spec_type_to_rs(st, ctx, typ, comment) matches Ok(out) ==> unmarked(out.st.segments),
    decreases type_depth(typ), 1nat, 0nat,
{
    match typ {
        TsType::Parenthesized(t) => {
            lemma_type_unmarked(st, ctx, *t, comment);
        },
        TsType::Union(_) | TsType::Intersection(_) => {
            lemma_union_unmarked(st, ctx, typ, comment);
        },
        TsType::Array(elem) => {
            lemma_type_unmarked(st, ctx, *elem, comment);
        },
        TsType::TypeLit(members) => {
            if ctx is Some {
                lemma_type_literal_unmarked(st, ctx->0, members@, comment);
                match spec_type_literal(st, ctx->0, members@, comment) {
                    Ok(lit) => {
                        lemma_unmarked_push(lit.st.segments, RustSegmentView::Struct(lit.s));
                    },
                    Err(_) => {},
                }
            }
        },
        _ => {},
    }
}

/// Converting a union or an intersection marks nothing.
pub proof fn lemma_union_unmarked(st: Fs, ctx: Option<CtxView>, typ: TsType, comment: Option<Seq<char>>)
    requires
        unmarked(st.segments),
    ensures
        spec_union_or_intersection(st, ctx, typ, comment) matches Ok(out) ==> unmarked(out.st.segments),
    decreases type_depth(typ), 0nat, 0nat,
{
    match typ {
        TsType::Union(types) => {
            let nn = non_null(types@);
            lemma_non_null(types@);
            if nn.len() > 0 {
                lemma_types_depth(nn, 0);
                if all_type_lit(nn) {
                    lemma_lit_members_depth(nn);
                    lemma_merge_depth(lit_members(nn));
                }
            }
            if nn.len() == 0 {
            } else if nn.len() == 1 {
                lemma_type_unmarked(st, ctx, nn[0], comment);
            } else if all_lit_str(nn) {
                if ctx is Some {
                    lemma_literal_union_unmarked(
                        st,
                        sorted_strings(super::model::lit_values(nn)),
                        comment,
                        ctx->0,
                    );
                }
            } else if all_type_lit(nn) {
                if ctx is Some {
                    let merged = spec_merge(lit_members(nn));
                    lemma_type_literal_unmarked(st, ctx->0, merged.intersection, None);
                    match spec_type_literal(st, ctx->0, merged.intersection, None) {
                        Ok(base) => {
                            lemma_diffs_unmarked(base.st, base.ctx, merged.diffs);
                            match spec_diff_structs(base.st, base.ctx, merged.diffs) {
                                Ok(d) => {
                                    let named = d.ctx.create_ident_with(Some(seq!["DistinctUnion"@]));
                                    let e = RustSegmentView::Enum(
                                        super::model::untagged_enum(named.1, None, d.variants),
                                    );
                                    lemma_unmarked_push(d.st.segments, e);
                                    let s = crate::ir::RustStructView {
                                        member: base.s.member.push(
                                            super::model::flatten_member(
                                                "distinct"@,
                                                super::state::custom(named.1),
                                                comment,
                                            ),
                                        ),
                                        ..base.s
                                    };
                                    lemma_unmarked_push(
                                        d.st.segments.push(e),
                                        RustSegmentView::Struct(s),
                                    );
                                },
                                Err(_) => {},
                            }
                        },
                        Err(_) => {},
                    }
                }
            } else {
                if ctx is Some {
                    let made = ctx->0.create_ident();
                    let name = if made.0.from_alias {
                        made.1
                    } else {
                        made.1 + "Union"@
                    };
                    lemma_variants_unmarked(st, Some(made.0), nn);
                    match spec_variants(st, Some(made.0), nn) {
                        Ok(v) => {
                            lemma_unmarked_push(
                                v.st.segments,
                                RustSegmentView::Enum(
                                    super::model::untagged_enum(name, comment, v.variants),
                                ),
                            );
                        },
                        Err(_) => {},
                    }
                }
            }
        },
        TsType::Intersection(types) => {
            if types.len() == 2 && types[0] is TypeRef && types[1] is TypeLit {
                lemma_types_depth(types@, 1);
                if ctx is Some {
                    let name = types[0]->TypeRef_0@;
                    lemma_type_literal_unmarked(st, ctx->0, types[1]->TypeLit_0@, None);
                    match spec_type_literal(st, ctx->0, types[1]->TypeLit_0@, None) {
                        Ok(lit) => {
                            if super::model::all_unknown(lit.s.member) {
                                lemma_unmarked_push(
                                    lit.st.segments,
                                    RustSegmentView::Alias(
                                        crate::ir::RustAliasView {
                                            name: lit.s.name,
                                            is_borrowed: false,
                                            comment: None,
                                            ty: super::state::custom(name),
                                        },
                                    ),
                                );
                            } else {
                                let s = crate::ir::RustStructView {
                                    member: lit.s.member.push(
                                        super::model::flatten_member(
                                            crate::text::snake_of(name),
                                            super::state::custom(name),
                                            comment,
                                        ),
                                    ),
                                    ..lit.s
                                };
                                lemma_unmarked_push(lit.st.segments, RustSegmentView::Struct(s));
                            }
                        },
                        Err(_) => {},
                    }
                }
            }
        },
        _ => {},
    }
}

pub proof fn lemma_variants_unmarked(st: Fs, ctx: Option<CtxView>, types: Seq<TsType>)
    requires
        unmarked(st.segments),
    ensures
        spec_variants(st, ctx, types) matches Ok(out) ==> unmarked(out.st.segments),
    decreases types_depth(types), 5nat, types.len(),
{
    if types.len() > 0 {
        lemma_variants_unmarked(st, ctx, types.drop_last());
        match spec_variants(st, ctx, types.drop_last()) {
            Ok(r) => {
                lemma_type_unmarked(r.st, r.ctx, types.last(), None);
            },
            Err(_) => {},
        }
    }
}

pub proof fn lemma_diffs_unmarked(st: Fs, ctx: CtxView, diffs: Seq<Seq<TsTypeElement>>)
    requires
        unmarked(st.segments),
    ensures
        spec_diff_structs(st, ctx, diffs) matches Ok(out) ==> unmarked(out.st.segments),
    decreases lists_depth(diffs), 6nat, diffs.len(),
{
    if diffs.len() > 0 {
        lemma_diffs_unmarked(st, ctx, diffs.drop_last());
        match spec_diff_structs(st, ctx, diffs.drop_last()) {
            Ok(r) => {
                lemma_type_literal_unmarked(r.st, r.ctx, diffs.last(), None);
                match spec_type_literal(r.st, r.ctx, diffs.last(), None) {
                    Ok(lit) => {
                        lemma_unmarked_push(lit.st.segments, RustSegmentView::Struct(lit.s));
                    },
                    Err(_) => {},
                }
            },
            Err(_) => {},
        }
    }
}

pub proof fn lemma_type_literal_unmarked(
    st: Fs,
    ctx: CtxView,
    members: Seq<TsTypeElement>,
    comment: Option<Seq<char>>,
)
    requires
        unmarked(st.segments),
    ensures
        spec_type_literal(st, ctx, members, comment) matches Ok(out) ==> unmarked(out.st.segments)
            && !out.s.is_borrowed,
    decreases elements_depth(members), 3nat, 0nat,
{
    let made = ctx.create_ident();
    lemma_members_unmarked(st, made.0, made.1, members);
}

pub proof fn lemma_members_unmarked(st: Fs, ctx: CtxView, name: Seq<char>, members: Seq<TsTypeElement>)
    requires
        unmarked(st.segments),
    ensures
        spec_members(st, ctx, name, members) matches Ok(out) ==> unmarked(out.st.segments),
    decreases elements_depth(members), 2nat, members.len(),
{
    if members.len() > 0 {
        lemma_elements_depth(members, members.len() - 1);
        assert(element_depth(members.last()) <= elements_depth(members));
        lemma_members_unmarked(st, ctx, name, members.drop_last());
        match spec_members(st, ctx, name, members.drop_last()) {
            Ok(r) => match members.last() {
                TsTypeElement::Property(p) => {
                    lemma_prop_unmarked(p, r.st, ctx, name);
                },
                TsTypeElement::Index(i) => {
                    lemma_index_unmarked(i, None, r.st, ctx);
                },
                TsTypeElement::Other => {},
            },
            Err(_) => {},
        }
    }
}

pub proof fn lemma_prop_unmarked(p: TsPropertySignature, st: Fs, ctx: CtxView, name: Seq<char>)
    requires
        unmarked(st.segments),
    ensures
        spec_prop_signature(p, st, ctx, name) matches Ok(out) ==> unmarked(out.st.segments),
    decreases 1 + type_depth(p.type_ann), 1nat, 0nat,
{
    let pkey = match super::model::reserved_rename(p.key@) {
        Some(r) => r,
        None => p.key@,
    };
    lemma_type_unmarked(st, Some(ctx.projected(pkey)), p.type_ann, None);
}

pub proof fn lemma_index_unmarked(i: TsIndexSignature, comment: Option<Seq<char>>, st: Fs, ctx: CtxView)
    requires
        unmarked(st.segments),
    ensures
        spec_index_signature(i, comment, st, ctx) matches Ok(out) ==> unmarked(out.st.segments),
    decreases 1 + if type_depth(i.param_type) >= type_depth(i.type_ann) {
        type_depth(i.param_type)
    } else {
        type_depth(i.type_ann)
    }, 1nat, 0nat,
{
    lemma_type_unmarked(st, Some(ctx), i.param_type, None);
    match spec_type_to_rs(st, Some(ctx), i.param_type, None) {
        Ok(k) => {
            lemma_type_unmarked(k.st, k.ctx, i.type_ann, None);
        },
        Err(_) => {},
    }
}

proof fn lemma_interface_members_unmarked(st: Fs, ctx: CtxView, name: Seq<char>, body: Seq<TsTypeElement>)
    requires
        unmarked(st.segments),
    ensures
        spec_interface_members(st, ctx, name, body) matches Ok(out) ==> unmarked(out.st.segments),
    decreases body.len(),
{
    if body.len() > 0 {
        lemma_interface_members_unmarked(st, ctx, name, body.drop_last());
        match spec_interface_members(st, ctx, name, body.drop_last()) {
            Ok(r) => match body.last() {
                TsTypeElement::Property(p) => {
                    lemma_prop_unmarked(p, r.st, ctx, name);
                },
                _ => {},
            },
            Err(_) => {},
        }
    }
}

/// Converting a declaration marks nothing.
pub proof fn lemma_decl_unmarked(st: Fs, decl: Decl)
    requires
        unmarked(st.segments),
    ensures
        spec_decl(st, decl) matches Ok(out) ==> unmarked(out.segments),
{
    match decl {
        Decl::Interface(i) => {
            let ctx = CtxView::of_path(seq![i.name@]);
            lemma_interface_members_unmarked(st, ctx, i.name@, i.body@);
            match spec_interface_members(st, ctx, i.name@, i.body@) {
                Ok(m) => {
                    lemma_unmarked_push(m.st.segments, spec_decl(st, decl)->Ok_0.segments.last());
                    assert(spec_decl(st, decl)->Ok_0.segments =~= m.st.segments.push(
                        spec_decl(st, decl)->Ok_0.segments.last(),
                    ));
                },
                Err(_) => {},
            }
        },
        Decl::TypeAlias(a) => {
            let comment = super::model::stripped(crate::ast::opt_view(a.comment));
            if a.name@ == "WebhookEvents"@ {
                lemma_unmarked_push(st.segments, spec_decl(st, decl)->Ok_0.segments.last());
                assert(spec_decl(st, decl)->Ok_0.segments =~= st.segments.push(
                    spec_decl(st, decl)->Ok_0.segments.last(),
                ));
            } else {
                match a.type_ann {
                    TsType::TypeRef(rhs) => {
                        lemma_unmarked_push(
                            st.segments,
                            super::declarations::alias_segment(a.name@, comment, super::state::custom(rhs@)),
                        );
                    },
                    TsType::Union(_) | TsType::Intersection(_) => {
                        lemma_union_unmarked(
                            st,
                            Some(super::declarations::granted_ctx(a.name@, true)),
                            a.type_ann,
                            comment,
                        );
                    },
                    TsType::Keyword(_) | TsType::Array(_) => {
                        lemma_type_unmarked(st, None, a.type_ann, None);
                        match spec_type_to_rs(st, None, a.type_ann, None) {
                            Ok(r) => {
                                lemma_unmarked_push(
                                    r.st.segments,
                                    super::declarations::alias_segment(a.name@, comment, r.ty),
                                );
                            },
                            Err(_) => {},
                        }
                    },
                    _ => {},
                }
            }
        },
        Decl::Other => {},
    }
}

/// The front end marks nothing: after the conversion of a module no
/// segment is reference-capable.
pub proof fn lemma_module_unmarked(decls: Seq<Decl>)
    ensures
        spec_module(decls) matches Ok(out) ==> unmarked(out.segments),
    decreases decls.len(),
{
    if decls.len() > 0 {
        lemma_module_unmarked(decls.drop_last());
        match spec_module(decls.drop_last()) {
            Ok(st) => {
                lemma_decl_unmarked(st, decls.last());
            },
            Err(_) => {},
        }
    }
}

/// One sum type per set of literals: once a union of string literals has
/// become a sum type, a union of the same literals, in whatever order and
/// at whatever later point of the conversion, becomes an alias of that sum
/// type and adds no sum type.
pub proof fn lemma_literal_union_deduplicated(
    st: Fs,
    first: Seq<Seq<char>>,
    comment: Option<Seq<char>>,
    ctx: CtxView,
    later: Fs,
    second: Seq<Seq<char>>,
    later_comment: Option<Seq<char>>,
    later_ctx: CtxView,
)
    requires
        first.to_multiset() == second.to_multiset(),
        keys_distinct(st.literal_map),
        literal_lookup(st.literal_map, sorted_strings(first)) is None,
        cache_grows(spec_string_literal_union(st, sorted_strings(first), comment, ctx).0, later),
    ensures
        ({
            let made = spec_string_literal_union(st, sorted_strings(first), comment, ctx);
            let again = spec_string_literal_union(later, sorted_strings(second), later_comment, later_ctx);
            &&& again.0.segments == later.segments.push(
                RustSegmentView::Alias(alias_of(again.2, later_comment, made.2)),
            )
            &&& again.0.literal_map == later.literal_map
        }),
{
    let key = sorted_strings(first);
    lemma_sorted_permutation(first, second);
    let made = spec_string_literal_union(st, key, comment, ctx);
    lemma_literal_union_grows(st, key, comment, ctx);
    assert(made.0.literal_map.last() == (key, made.2));
    assert(literal_lookup(made.0.literal_map, key) == Some(made.2));
    lemma_lookup_persists(made.0, later, key);
}

} // verus!
