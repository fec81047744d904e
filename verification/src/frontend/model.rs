//! What the conversion of a declaration is: the functions from a
//! declaration and a state to the segments it adds.

use vstd::prelude::*;
use crate::ast::{
    element_depth, elements_depth, lemma_elements_depth, lemma_types_depth, type_depth, types_depth, TsIndexSignature, TsKeywordKind,
    TsPropertySignature, TsType, TsTypeElement,
};
use crate::docs::spec_strip_docs;
use crate::ir::{
    RustAliasView, RustEnumMemberKindView, RustEnumMemberView, RustEnumView, RustMemberTypeView,
    RustSegmentView, RustStructMemberView, RustStructView, RustTypeView, SerdeContainerAttrView,
    SerdeFieldAttrView,
};
use crate::lexical::sorted_strings;
use crate::text::snake_of;
use super::context::CtxView;
use super::merge_union_type_lits::{lemma_merge_depth, lists_depth, spec_merge};
use super::name_types::spec_string_literal_union;
use super::state::{custom, lits_insert, FrontendError, Fs};

verus! {

pub struct TypeOut {
    pub st: Fs,
    pub ctx: Option<CtxView>,
    pub nullable: bool,
    pub ty: RustTypeView,
}

pub struct UnionOut {
    pub st: Fs,
    pub nullable: bool,
    pub ty: RustTypeView,
}

pub struct StructOut {
    pub st: Fs,
    pub ctx: CtxView,
    pub s: RustStructView,
}

pub struct MemberOut {
    pub st: Fs,
    pub member: RustStructMemberView,
}

pub struct MembersOut {
    pub st: Fs,
    pub members: Seq<RustStructMemberView>,
}

pub struct VariantsOut {
    pub st: Fs,
    pub ctx: Option<CtxView>,
    pub variants: Seq<RustEnumMemberView>,
}

pub struct DiffsOut {
    pub st: Fs,
    pub ctx: CtxView,
    pub variants: Seq<RustEnumMemberView>,
}

/// The counterpart of a keyword type.
pub open spec fn spec_keyword(k: TsKeywordKind) -> Result<RustTypeView, FrontendError> {
    match k {
        TsKeywordKind::String => Ok(RustTypeView::String { is_borrowed: false }),
        TsKeywordKind::Number => Ok(RustTypeView::Number),
        TsKeywordKind::Boolean => Ok(RustTypeView::Boolean),
        TsKeywordKind::Null => Ok(RustTypeView::Unit),
        TsKeywordKind::Unknown => Ok(RustTypeView::Unknown),
        TsKeywordKind::Other => Err(FrontendError::UnsupportedKeyword),
    }
}

pub open spec fn is_null_keyword(t: TsType) -> bool {
    t matches TsType::Keyword(TsKeywordKind::Null)
}

/// The alternatives of a union that are not `null`, in order.
pub open spec fn non_null(types: Seq<TsType>) -> Seq<TsType>
    decreases types.len(),
{
    if types.len() == 0 {
        Seq::empty()
    } else if is_null_keyword(types.last()) {
        non_null(types.drop_last())
    } else {
        non_null(types.drop_last()).push(types.last())
    }
}

/// Whether `null` is among the alternatives.
pub open spec fn has_null(types: Seq<TsType>) -> bool {
    exists|i: int| 0 <= i < types.len() && is_null_keyword(#[trigger] types[i])
}

pub open spec fn all_lit_str(types: Seq<TsType>) -> bool {
    forall|i: int| 0 <= i < types.len() ==> (#[trigger] types[i]) is LitStr
}

/// The values of string literal types.
pub open spec fn lit_values(types: Seq<TsType>) -> Seq<Seq<char>> {
    types.map_values(|t: TsType| t->LitStr_0@)
}

pub open spec fn all_type_lit(types: Seq<TsType>) -> bool {
    forall|i: int| 0 <= i < types.len() ==> (#[trigger] types[i]) is TypeLit
}

/// The members of object type literals.
pub open spec fn lit_members(types: Seq<TsType>) -> Seq<Seq<TsTypeElement>> {
    types.map_values(|t: TsType| t->TypeLit_0@)
}

pub proof fn lemma_non_null(types: Seq<TsType>)
    ensures
        types_depth(non_null(types)) <= types_depth(types),
        non_null(types).len() <= types.len(),
        forall|i: int| 0 <= i < non_null(types).len() ==> !is_null_keyword(#[trigger] non_null(types)[i]),
        has_null(types) <==> non_null(types).len() < types.len(),
    decreases types.len(),
{
    if types.len() > 0 {
        let init = types.drop_last();
        lemma_non_null(init);
        let nn = non_null(types);
        if is_null_keyword(types.last()) {
            assert(is_null_keyword(types[types.len() - 1]));
        } else {
            assert(nn.drop_last() =~= non_null(init));
            assert forall|i: int| 0 <= i < nn.len() implies !is_null_keyword(#[trigger] nn[i]) by {
                if i < nn.len() - 1 {
                    assert(nn[i] == non_null(init)[i]);
                }
            }
        }
        if has_null(init) {
            let i = choose|i: int| 0 <= i < init.len() && is_null_keyword(#[trigger] init[i]);
            assert(is_null_keyword(types[i]));
        }
        if has_null(types) && !is_null_keyword(types.last()) {
            let i = choose|i: int| 0 <= i < types.len() && is_null_keyword(#[trigger] types[i]);
            assert(is_null_keyword(init[i]));
        }
    }
}

/// Object type literals lie one level above their members.
pub proof fn lemma_lit_members_depth(types: Seq<TsType>)
    requires
        all_type_lit(types),
        types.len() > 0,
    ensures
        lists_depth(lit_members(types)) + 1 <= types_depth(types),
    decreases types.len(),
{
    let lists = lit_members(types);
    let init = types.drop_last();
    assert(types[types.len() - 1] is TypeLit);
    assert(lists.last() == types.last()->TypeLit_0@);
    assert(type_depth(types.last()) == 1 + elements_depth(types.last()->TypeLit_0@));
    assert(lists.drop_last() =~= lit_members(init));
    if types.len() > 1 {
        assert forall|i: int| 0 <= i < init.len() implies (#[trigger] init[i]) is TypeLit by {
            assert(init[i] == types[i]);
        }
        lemma_lit_members_depth(init);
    } else {
        assert(lists_depth(lists.drop_last()) == 0);
        assert(types_depth(init) == 0);
    }
    assert(lists_depth(lists) == if lists_depth(lists.drop_last()) >= elements_depth(lists.last()) {
        lists_depth(lists.drop_last())
    } else {
        elements_depth(lists.last())
    });
    assert(types_depth(types) == if types_depth(init) >= type_depth(types.last()) {
        types_depth(init)
    } else {
        type_depth(types.last())
    });
}

/// The identifier that stands for a property key that is a reserved word
/// or no identifier.
pub open spec fn reserved_rename(key: Seq<char>) -> Option<Seq<char>> {
    if key == "type"@ {
        Some("type_"@)
    } else if key == "ref"@ {
        Some("ref_"@)
    } else if key == "self"@ {
        Some("self_"@)
    } else if key == "+1"@ {
        Some("plus_1"@)
    } else if key == "-1"@ {
        Some("minus_1"@)
    } else {
        None
    }
}

/// The prose of an optional comment.
pub open spec fn stripped(c: Option<Seq<char>>) -> Option<Seq<char>> {
    match c {
        Some(text) => Some(spec_strip_docs(text)),
        None => None,
    }
}

pub open spec fn unary(ty: RustTypeView) -> RustEnumMemberView {
    RustEnumMemberView { attr: Seq::empty(), kind: RustEnumMemberKindView::Unary(ty) }
}

pub open spec fn all_unknown(members: Seq<RustStructMemberView>) -> bool {
    forall|i: int| 0 <= i < members.len() ==> (#[trigger] members[i]).ty.ty.is_unknown()
}

/// A flattened field.
pub open spec fn flatten_member(name: Seq<char>, ty: RustTypeView, comment: Option<Seq<char>>) -> RustStructMemberView {
    RustStructMemberView {
        attr: seq![SerdeFieldAttrView::Flatten],
        name,
        ty: RustMemberTypeView { ty, is_optional: false },
        comment,
    }
}

pub open spec fn untagged_enum(
    name: Seq<char>,
    comment: Option<Seq<char>>,
    member: Seq<RustEnumMemberView>,
) -> RustEnumView {
    RustEnumView {
        attr: seq![SerdeContainerAttrView::Untagged],
        name,
        comment,
        is_borrowed: false,
        member,
    }
}

/// The conversion of a type expression: the type it becomes, whether it
/// admits `null`, and the segments that its anonymous parts add.
pub open spec fn spec_type_to_rs(
    st: Fs,
    ctx: Option<CtxView>,
    typ: TsType,
    comment: Option<Seq<char>>,
) -> Result<TypeOut, FrontendError>
    decreases type_depth(typ), 1nat, 0nat,
{
    match typ {
        TsType::Parenthesized(t) => spec_type_to_rs(st, ctx, *t, comment),
        TsType::Keyword(k) => match spec_keyword(k) {
            Ok(ty) => Ok(TypeOut { st, ctx, nullable: false, ty }),
            Err(e) => Err(e),
        },
        TsType::Union(_) | TsType::Intersection(_) => match spec_union_or_intersection(
            st,
            ctx,
            typ,
            comment,
        ) {
            Ok(u) => Ok(TypeOut { st: u.st, ctx, nullable: u.nullable, ty: u.ty }),
            Err(e) => Err(e),
        },
        TsType::LitStr(_) | TsType::LitOther => Ok(
            TypeOut { st, ctx, nullable: false, ty: RustTypeView::UnknownLiteral },
        ),
        TsType::TypeRef(name) => Ok(TypeOut { st, ctx, nullable: false, ty: custom(name@) }),
        TsType::Array(elem) => match spec_type_to_rs(st, ctx, *elem, comment) {
            Ok(r) => Ok(
                TypeOut { st: r.st, ctx: r.ctx, nullable: false, ty: RustTypeView::Array(Box::new(r.ty)) },
            ),
            Err(e) => Err(e),
        },
        TsType::TypeLit(members) => match ctx {
            None => Err(FrontendError::MissingContext),
            Some(c) => match spec_type_literal(st, c, members@, comment) {
                Ok(lit) => Ok(
                    TypeOut {
                        st: lit.st.push(RustSegmentView::Struct(lit.s)),
                        ctx: Some(lit.ctx),
                        nullable: false,
                        ty: custom(lit.s.name),
                    },
                ),
                Err(e) => Err(e),
            },
        },
        TsType::Tuple(elems) => Ok(
            TypeOut {
                st,
                ctx,
                nullable: false,
                ty: if elems.len() == 0 {
                    RustTypeView::Unit
                } else {
                    RustTypeView::Unknown
                },
            },
        ),
        _ => Ok(TypeOut { st, ctx, nullable: false, ty: RustTypeView::Unknown }),
    }
}

/// The conversion of a union or an intersection.
pub open spec fn spec_union_or_intersection(
    st: Fs,
    ctx: Option<CtxView>,
    typ: TsType,
    comment: Option<Seq<char>>,
) -> Result<UnionOut, FrontendError>
    decreases type_depth(typ), 0nat, 0nat,
{
    match typ {
        TsType::Union(types) => {
            let nn = non_null(types@);
            let nullable = has_null(types@);
            proof {
                lemma_non_null(types@);
                if nn.len() > 0 {
                    lemma_types_depth(nn, 0);
                    if all_type_lit(nn) {
                        lemma_lit_members_depth(nn);
                        lemma_merge_depth(lit_members(nn));
                    }
                }
            }
            if nn.len() == 0 {
                Err(FrontendError::EmptyUnion)
            } else if nn.len() == 1 {
                match spec_type_to_rs(st, ctx, nn[0], comment) {
                    Ok(r) => Ok(UnionOut { st: r.st, nullable: nullable || r.nullable, ty: r.ty }),
                    Err(e) => Err(e),
                }
            } else if all_lit_str(nn) {
                match ctx {
                    None => Err(FrontendError::MissingContext),
                    Some(c) => {
                        let out = spec_string_literal_union(st, sorted_strings(lit_values(nn)), comment, c);
                        Ok(UnionOut { st: out.0, nullable, ty: custom(out.2) })
                    },
                }
            } else if all_type_lit(nn) {
                match ctx {
                    None => Err(FrontendError::MissingContext),
                    Some(c) => {
                        let merged = spec_merge(lit_members(nn));
                        match spec_type_literal(st, c, merged.intersection, None) {
                            Err(e) => Err(e),
                            Ok(base) => match spec_diff_structs(base.st, base.ctx, merged.diffs) {
                                Err(e) => Err(e),
                                Ok(d) => {
                                    let named = d.ctx.create_ident_with(Some(seq!["DistinctUnion"@]));
                                    let st3 = d.st.push(
                                        RustSegmentView::Enum(untagged_enum(named.1, None, d.variants)),
                                    );
                                    let s = RustStructView {
                                        member: base.s.member.push(
                                            flatten_member("distinct"@, custom(named.1), comment),
                                        ),
                                        ..base.s
                                    };
                                    Ok(
                                        UnionOut {
                                            st: st3.push(RustSegmentView::Struct(s)),
                                            nullable,
                                            ty: custom(s.name),
                                        },
                                    )
                                },
                            },
                        }
                    },
                }
            } else {
                match ctx {
                    None => Err(FrontendError::MissingContext),
                    Some(c) => {
                        let made = c.create_ident();
                        let name = if made.0.from_alias {
                            made.1
                        } else {
                            made.1 + "Union"@
                        };
                        match spec_variants(st, Some(made.0), nn) {
                            Err(e) => Err(e),
                            Ok(v) => Ok(
                                UnionOut {
                                    st: v.st.push(
                                        RustSegmentView::Enum(untagged_enum(name, comment, v.variants)),
                                    ),
                                    nullable,
                                    ty: custom(name),
                                },
                            ),
                        }
                    },
                }
            }
        },
        TsType::Intersection(types) => {
            if types.len() == 2 && types[0] is TypeRef && types[1] is TypeLit {
                proof {
                    lemma_types_depth(types@, 1);
                }
                match ctx {
                    None => Err(FrontendError::MissingContext),
                    Some(c) => {
                        let name = types[0]->TypeRef_0@;
                        match spec_type_literal(st, c, types[1]->TypeLit_0@, None) {
                            Err(e) => Err(e),
                            Ok(lit) => if all_unknown(lit.s.member) {
                                Ok(
                                    UnionOut {
                                        st: lit.st.push(
                                            RustSegmentView::Alias(
                                                RustAliasView {
                                                    name: lit.s.name,
                                                    is_borrowed: false,
                                                    comment: None,
                                                    ty: custom(name),
                                                },
                                            ),
                                        ),
                                        nullable: false,
                                        ty: custom(lit.s.name),
                                    },
                                )
                            } else {
                                let s = RustStructView {
                                    member: lit.s.member.push(
                                        flatten_member(snake_of(name), custom(name), comment),
                                    ),
                                    ..lit.s
                                };
                                Ok(
                                    UnionOut {
                                        st: lit.st.push(RustSegmentView::Struct(s)),
                                        nullable: false,
                                        ty: custom(s.name),
                                    },
                                )
                            },
                        }
                    },
                }
            } else {
                Ok(UnionOut { st, nullable: false, ty: RustTypeView::UnknownIntersection })
            }
        },
        _ => Ok(UnionOut { st, nullable: false, ty: RustTypeView::Unknown }),
    }
}

/// The variants of a union of arbitrary alternatives: each alternative is
/// converted in turn and wrapped without a name.
pub open spec fn spec_variants(st: Fs, ctx: Option<CtxView>, types: Seq<TsType>) -> Result<
    VariantsOut,
    FrontendError,
>
    decreases types_depth(types), 5nat, types.len(),
{
    if types.len() == 0 {
        Ok(VariantsOut { st, ctx, variants: Seq::empty() })
    } else {
        match spec_variants(st, ctx, types.drop_last()) {
            Err(e) => Err(e),
            Ok(r) => match spec_type_to_rs(r.st, r.ctx, types.last(), None) {
                Err(e) => Err(e),
                Ok(t) => Ok(VariantsOut { st: t.st, ctx: t.ctx, variants: r.variants.push(unary(t.ty)) }),
            },
        }
    }
}

/// The records of the particular members of the alternatives of a union of
/// object types: each list becomes a record of its own, wrapped without a
/// name.
pub open spec fn spec_diff_structs(st: Fs, ctx: CtxView, diffs: Seq<Seq<TsTypeElement>>) -> Result<
    DiffsOut,
    FrontendError,
>
    decreases lists_depth(diffs), 6nat, diffs.len(),
{
    if diffs.len() == 0 {
        Ok(DiffsOut { st, ctx, variants: Seq::empty() })
    } else {
        match spec_diff_structs(st, ctx, diffs.drop_last()) {
            Err(e) => Err(e),
            Ok(r) => match spec_type_literal(r.st, r.ctx, diffs.last(), None) {
                Err(e) => Err(e),
                Ok(lit) => Ok(
                    DiffsOut {
                        st: lit.st.push(RustSegmentView::Struct(lit.s)),
                        ctx: lit.ctx,
                        variants: r.variants.push(unary(custom(lit.s.name))),
                    },
                ),
            },
        }
    }
}

/// The record of an object type: it is named from the context, and its
/// members are converted in order.
pub open spec fn spec_type_literal(
    st: Fs,
    ctx: CtxView,
    members: Seq<TsTypeElement>,
    comment: Option<Seq<char>>,
) -> Result<StructOut, FrontendError>
    decreases elements_depth(members), 3nat, 0nat,
{
    let made = ctx.create_ident();
    match spec_members(st, made.0, made.1, members) {
        Err(e) => Err(e),
        Ok(m) => Ok(
            StructOut {
                st: m.st,
                ctx: made.0,
                s: RustStructView {
                    attr: Seq::empty(),
                    name: made.1,
                    comment,
                    is_borrowed: false,
                    member: m.members,
                },
            },
        ),
    }
}

/// The fields of the members of an object type, in order. A member that is
/// neither a property nor an index signature has no field.
pub open spec fn spec_members(st: Fs, ctx: CtxView, name: Seq<char>, members: Seq<TsTypeElement>) -> Result<
    MembersOut,
    FrontendError,
>
    decreases elements_depth(members), 2nat, members.len(),
{
    if members.len() == 0 {
        Ok(MembersOut { st, members: Seq::empty() })
    } else {
        proof {
            lemma_elements_depth(members, members.len() - 1);
            assert(element_depth(members.last()) <= elements_depth(members));
        }
        match spec_members(st, ctx, name, members.drop_last()) {
            Err(e) => Err(e),
            Ok(r) => match members.last() {
                TsTypeElement::Property(p) => match spec_prop_signature(p, r.st, ctx, name) {
                    Err(e) => Err(e),
                    Ok(m) => Ok(MembersOut { st: m.st, members: r.members.push(m.member) }),
                },
                TsTypeElement::Index(i) => match spec_index_signature(i, None, r.st, ctx) {
                    Err(e) => Err(e),
                    Ok(m) => Ok(MembersOut { st: m.st, members: r.members.push(m.member) }),
                },
                TsTypeElement::Other => Ok(r),
            },
        }
    }
}

/// The field of a property of the record `name`. A key that is a reserved
/// word gets another identifier and a rename attribute; a property whose
/// type is one string literal enters the literal key map.
pub open spec fn spec_prop_signature(p: TsPropertySignature, st: Fs, ctx: CtxView, name: Seq<char>) -> Result<
    MemberOut,
    FrontendError,
>
    decreases 1 + type_depth(p.type_ann), 1nat, 0nat,
{
    let renamed = reserved_rename(p.key@);
    let pkey = match renamed {
        Some(r) => r,
        None => p.key@,
    };
    match spec_type_to_rs(st, Some(ctx.projected(pkey)), p.type_ann, None) {
        Err(e) => Err(e),
        Ok(r) => Ok(
            MemberOut {
                st: match p.type_ann {
                    TsType::LitStr(v) => Fs { lits: lits_insert(r.st.lits, name, pkey, v@), ..r.st },
                    _ => r.st,
                },
                member: RustStructMemberView {
                    attr: match renamed {
                        Some(_) => seq![SerdeFieldAttrView::Rename(p.key@)],
                        None => Seq::empty(),
                    },
                    name: pkey,
                    ty: RustMemberTypeView { ty: r.ty, is_optional: p.optional || r.nullable },
                    comment: stripped(crate::ast::opt_view(p.comment)),
                },
            },
        ),
    }
}

/// The field of an index signature: a map from the key type to the value
/// type, merged into the parent.
pub open spec fn spec_index_signature(
    i: TsIndexSignature,
    comment: Option<Seq<char>>,
    st: Fs,
    ctx: CtxView,
) -> Result<MemberOut, FrontendError>
    decreases 1 + if type_depth(i.param_type) >= type_depth(i.type_ann) {
        type_depth(i.param_type)
    } else {
        type_depth(i.type_ann)
    }, 1nat, 0nat,
{
    match spec_type_to_rs(st, Some(ctx), i.param_type, None) {
        Err(e) => Err(e),
        Ok(k) => match spec_type_to_rs(k.st, k.ctx, i.type_ann, None) {
            Err(e) => Err(e),
            Ok(v) => Ok(
                MemberOut {
                    st: v.st,
                    member: flatten_member(
                        i.param_name@,
                        RustTypeView::Dict(Box::new(k.ty), Box::new(v.ty)),
                        comment,
                    ),
                },
            ),
        },
    }
}

} // verus!
