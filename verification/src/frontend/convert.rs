//! The conversion of type expressions, object types, unions and
//! intersections.

use vstd::prelude::*;
use crate::ast::{
    elements_depth, lemma_elements_depth, lemma_types_depth, type_depth, types_depth,
    TsIndexSignature, TsKeywordKind, TsPropertySignature, TsType, TsTypeElement,
};
use crate::docs::strip_docs;
use crate::ir::{
    comment_view, lkm_wf, segments_view, LiteralKeyMap, RustAlias, RustComment,
    RustContainerAttrs, RustEnum, RustEnumMember, RustEnumMemberKind, RustEnumMemberView,
    RustFieldAttr, RustFieldAttrs, RustMemberType, RustSegment, RustSegmentView, RustStruct,
    RustStructAttr, RustStructMember, RustStructMemberView, RustType, RustVariantAttrs,
    SerdeContainerAttr, SerdeContainerAttrView, SerdeFieldAttr, SerdeFieldAttrView, TypeName,
};
use crate::lexical::{sort_strings, strings_view};
use crate::text::{str_eq, to_snake};
use super::context::{opt_ctx_view, CtxView, TypeConvertContext};
use super::merge_union_type_lits::{
    lemma_lists_depth, lemma_merge_depth, lists_depth, merge_union_type_lits, refs_lists_view,
    refs_view, variants_view, Merged,
};
use super::model::{
    all_lit_str, all_type_lit, all_unknown, has_null, is_null_keyword, lemma_lit_members_depth,
    lemma_non_null, lit_members, lit_values, non_null, spec_diff_structs,
    spec_index_signature, spec_keyword, spec_members, spec_prop_signature, spec_type_literal,
    spec_type_to_rs, spec_union_or_intersection, spec_variants, DiffsOut, MemberOut,
    MembersOut, StructOut, TypeOut, UnionOut, VariantsOut,
};
use super::name_types::string_literal_union;
use super::state::{fs_view, lkm_insert, FrontendError, FrontendState, Fs};

verus! {

/// The types that a list of references stands for.
pub open spec fn type_refs_view(v: Seq<&TsType>) -> Seq<TsType> {
    v.map_values(|t: &TsType| *t)
}

/// The result of a conversion of a type is what the model says.
pub open spec fn type_result_is(
    r: Result<(bool, RustType), FrontendError>,
    st: FrontendState,
    lkm: LiteralKeyMap,
    ctxt: Option<TypeConvertContext>,
    expected: Result<TypeOut, FrontendError>,
) -> bool {
    match expected {
        Ok(out) => r is Ok && fs_view(st, lkm) == out.st && opt_ctx_view(ctxt) == out.ctx && r->Ok_0.0
            == out.nullable && r->Ok_0.1@ == out.ty,
        Err(e) => r is Err && r->Err_0 == e,
    }
}

pub open spec fn union_result_is(
    r: Result<RustType, FrontendError>,
    st: FrontendState,
    lkm: LiteralKeyMap,
    nullable_before: bool,
    nullable_after: bool,
    expected: Result<UnionOut, FrontendError>,
) -> bool {
    match expected {
        Ok(out) => r is Ok && fs_view(st, lkm) == out.st && nullable_after == (nullable_before
            || out.nullable) && r->Ok_0@ == out.ty,
        Err(e) => r is Err && r->Err_0 == e,
    }
}

pub open spec fn struct_result_is(
    r: Result<RustStruct, FrontendError>,
    st: FrontendState,
    lkm: LiteralKeyMap,
    ctxt: TypeConvertContext,
    expected: Result<StructOut, FrontendError>,
) -> bool {
    match expected {
        Ok(out) => r is Ok && fs_view(st, lkm) == out.st && ctxt@ == out.ctx && r->Ok_0@ == out.s,
        Err(e) => r is Err && r->Err_0 == e,
    }
}

pub open spec fn member_result_is(
    r: Result<RustStructMember, FrontendError>,
    st: FrontendState,
    lkm: LiteralKeyMap,
    expected: Result<MemberOut, FrontendError>,
) -> bool {
    match expected {
        Ok(out) => r is Ok && fs_view(st, lkm) == out.st && r->Ok_0@ == out.member,
        Err(e) => r is Err && r->Err_0 == e,
    }
}

/// An error on a prefix of the members is the error on all of them.
pub proof fn lemma_members_err(st: Fs, ctx: CtxView, name: Seq<char>, members: Seq<TsTypeElement>, i: int)
    requires
        0 <= i <= members.len(),
        spec_members(st, ctx, name, members.take(i)) is Err,
    ensures
        spec_members(st, ctx, name, members) == spec_members(st, ctx, name, members.take(i)),
    decreases members.len() - i,
{
    if i < members.len() {
        assert(members.take(i + 1).drop_last() =~= members.take(i));
        lemma_members_err(st, ctx, name, members, i + 1);
    } else {
        assert(members.take(i) =~= members);
    }
}

/// An error on a prefix of the alternatives is the error on all of them.
pub proof fn lemma_variants_err(st: Fs, ctx: Option<CtxView>, types: Seq<TsType>, i: int)
    requires
        0 <= i <= types.len(),
        spec_variants(st, ctx, types.take(i)) is Err,
    ensures
        spec_variants(st, ctx, types) == spec_variants(st, ctx, types.take(i)),
    decreases types.len() - i,
{
    if i < types.len() {
        assert(types.take(i + 1).drop_last() =~= types.take(i));
        lemma_variants_err(st, ctx, types, i + 1);
    } else {
        assert(types.take(i) =~= types);
    }
}

/// An error on a prefix of the lists is the error on all of them.
pub proof fn lemma_diffs_err(st: Fs, ctx: CtxView, diffs: Seq<Seq<TsTypeElement>>, i: int)
    requires
        0 <= i <= diffs.len(),
        spec_diff_structs(st, ctx, diffs.take(i)) is Err,
    ensures
        spec_diff_structs(st, ctx, diffs) == spec_diff_structs(st, ctx, diffs.take(i)),
    decreases diffs.len() - i,
{
    if i < diffs.len() {
        assert(diffs.take(i + 1).drop_last() =~= diffs.take(i));
        lemma_diffs_err(st, ctx, diffs, i + 1);
    } else {
        assert(diffs.take(i) =~= diffs);
    }
}

/// The counterpart of a keyword type.
pub fn ts_keyword_type_to_rs(kind: TsKeywordKind) -> (r: Result<RustType, FrontendError>)
    ensures
        match spec_keyword(kind) {
            Ok(t) => r is Ok && r->Ok_0@ == t,
            Err(e) => r is Err && r->Err_0 == e,
        },
{
    match kind {
        TsKeywordKind::String => Ok(RustType::String { is_borrowed: false }),
        TsKeywordKind::Number => Ok(RustType::Number),
        TsKeywordKind::Boolean => Ok(RustType::Boolean),
        TsKeywordKind::Null => Ok(RustType::Unit),
        TsKeywordKind::Unknown => Ok(RustType::Unknown),
        TsKeywordKind::Other => Err(FrontendError::UnsupportedKeyword),
    }
}

/// Converts a type expression: returns whether it admits `null` and the
/// type it becomes, and adds the segments that its anonymous parts need.
pub fn ts_type_to_rs(
    st: &mut FrontendState,
    ctxt: &mut Option<TypeConvertContext>,
    typ: &TsType,
    comment: Option<RustComment>,
    lkm: &mut LiteralKeyMap,
) -> (r: Result<(bool, RustType), FrontendError>)
    requires
        lkm_wf(*old(lkm)),
    ensures
        lkm_wf(*final(lkm)),
        type_result_is(
            r,
            *final(st),
            *final(lkm),
            *final(ctxt),
            spec_type_to_rs(
                fs_view(*old(st), *old(lkm)),
                opt_ctx_view(*old(ctxt)),
                *typ,
                comment_view(comment),
            ),
        ),
    decreases type_depth(*typ), 1nat, 0nat,
{
    match typ {
        TsType::Parenthesized(t) => ts_type_to_rs(st, ctxt, t, comment, lkm),
        TsType::Keyword(tk) => match ts_keyword_type_to_rs(*tk) {
            Ok(ty) => Ok((false, ty)),
            Err(e) => Err(e),
        },
        TsType::Union(_) | TsType::Intersection(_) => {
            let mut nullable = false;
            let owned = match ctxt {
                Some(c) => Some(c.clone()),
                None => None,
            };
            match union_or_intersection(st, owned, typ, comment, &mut nullable, lkm) {
                Ok(ty) => Ok((nullable, ty)),
                Err(e) => Err(e),
            }
        },
        TsType::LitStr(_) | TsType::LitOther => Ok((false, RustType::UnknownLiteral)),
        TsType::TypeRef(id) => Ok(
            (false, RustType::Custom(TypeName { name: id.clone(), is_borrowed: false })),
        ),
        TsType::Array(elem) => match ts_type_to_rs(st, ctxt, elem, comment, lkm) {
            Ok((_n, etype)) => Ok((false, RustType::Array(Box::new(etype)))),
            Err(e) => Err(e),
        },
        TsType::TypeLit(members) => {
            match ctxt {
                None => Err(FrontendError::MissingContext),
                Some(c) => {
                    let refs = super::merge_union_type_lits::refs_of(members);
                    match type_literal(st, &refs, comment, c, lkm) {
                        Ok(s) => {
                            let name = s.name.clone();
                            let ghost segs = segments_view(st.segments@);
                            st.segments.push(RustSegment::Struct(s));
                            assert(segments_view(st.segments@) =~= segs.push(RustSegmentView::Struct(s@)));
                            Ok((false, RustType::Custom(TypeName::new(name))))
                        },
                        Err(e) => Err(e),
                    }
                },
            }
        },
        TsType::Tuple(elems) => {
            if elems.len() == 0 {
                Ok((false, RustType::Unit))
            } else {
                Ok((false, RustType::Unknown))
            }
        },
        _ => Ok((false, RustType::Unknown)),
    }
}

/// Converts an object type to a record, which it names from the context.
/// The record is returned, not added.
pub fn type_literal(
    st: &mut FrontendState,
    members: &Vec<&TsTypeElement>,
    comment: Option<RustComment>,
    ctxt: &mut TypeConvertContext,
    lkm: &mut LiteralKeyMap,
) -> (r: Result<RustStruct, FrontendError>)
    requires
        lkm_wf(*old(lkm)),
    ensures
        lkm_wf(*final(lkm)),
        struct_result_is(
            r,
            *final(st),
            *final(lkm),
            *final(ctxt),
            spec_type_literal(
                fs_view(*old(st), *old(lkm)),
                old(ctxt)@,
                refs_view(members@),
                comment_view(comment),
            ),
        ),
    decreases elements_depth(refs_view(members@)), 3nat, 0nat,
{
    let ghost fs0 = fs_view(*st, *lkm);
    let ghost all = refs_view(members@);
    let ghost expected = spec_type_literal(fs0, ctxt@, all, comment_view(comment));
    let name = ctxt.create_ident();
    let ghost ctx1 = ctxt@;
    assert(spec_members(fs0, ctx1, name@, all) is Err ==> expected is Err && expected->Err_0
        == spec_members(fs0, ctx1, name@, all)->Err_0);
    let mut out: Vec<RustStructMember> = Vec::new();
    let mut i: usize = 0;
    assert(all.take(0) =~= Seq::<TsTypeElement>::empty());
    assert(out@.map_values(|m: RustStructMember| m@) =~= Seq::<RustStructMemberView>::empty());
    while i < members.len()
        invariant
            i <= members.len(),
            all == refs_view(members@),
            lkm_wf(*lkm),
            ctxt@ == ctx1,
            expected == spec_type_literal(
                fs_view(*old(st), *old(lkm)),
                old(ctxt)@,
                refs_view(members@),
                comment_view(comment),
            ),
            spec_members(fs0, ctx1, name@, all) is Err ==> expected is Err && expected->Err_0
                == spec_members(fs0, ctx1, name@, all)->Err_0,
            spec_members(fs0, ctx1, name@, all.take(i as int)) == Ok::<MembersOut, FrontendError>(
                MembersOut { st: fs_view(*st, *lkm), members: out@.map_values(|m: RustStructMember| m@) },
            ),
        decreases members.len() - i,
    {
        proof {
            assert(all.take(i + 1).drop_last() =~= all.take(i as int));
            assert(all.take(i + 1).last() == *members@[i as int]);
            lemma_elements_depth(all, i as int);
        }
        let ghost before = out@.map_values(|m: RustStructMember| m@);
        match members[i] {
            TsTypeElement::Property(p) => {
                match ts_prop_signature(p, st, ctxt, name.as_str(), lkm) {
                    Ok(m) => {
                        out.push(m);
                        assert(out@.map_values(|m: RustStructMember| m@) =~= before.push(m@));
                    },
                    Err(e) => {
                        proof {
                            lemma_members_err(fs0, ctx1, name@, all, i + 1);
                        }
                        return Err(e);
                    },
                }
            },
            TsTypeElement::Index(index) => {
                match ts_index_signature(index, None, st, ctxt, lkm) {
                    Ok(m) => {
                        out.push(m);
                        assert(out@.map_values(|m: RustStructMember| m@) =~= before.push(m@));
                    },
                    Err(e) => {
                        proof {
                            lemma_members_err(fs0, ctx1, name@, all, i + 1);
                        }
                        return Err(e);
                    },
                }
            },
            TsTypeElement::Other => {},
        }
        i += 1;
    }
    assert(all.take(members.len() as int) =~= all);
    let s = RustStruct::from_members(name, comment, out);
    assert(s.attr@ =~= Seq::<SerdeContainerAttrView>::empty());
    Ok(s)
}

/// Converts a property of the record `name` to a field.
pub fn ts_prop_signature(
    prop: &TsPropertySignature,
    st: &mut FrontendState,
    ctxt: &mut TypeConvertContext,
    name: &str,
    lkm: &mut LiteralKeyMap,
) -> (r: Result<RustStructMember, FrontendError>)
    requires
        lkm_wf(*old(lkm)),
    ensures
        lkm_wf(*final(lkm)),
        final(ctxt)@ == old(ctxt)@,
        member_result_is(
            r,
            *final(st),
            *final(lkm),
            spec_prop_signature(*prop, fs_view(*old(st), *old(lkm)), old(ctxt)@, name@),
        ),
    decreases 1 + type_depth(prop.type_ann), 1nat, 0nat,
{
    let comment = match &prop.comment {
        Some(text) => Some(strip_docs(text.as_str())),
        None => None,
    };
    let mut is_optional = prop.optional;
    let mut attr = RustFieldAttrs::new();
    let key = prop.key.as_str();
    let renamed: Option<&str> = if str_eq(key, "type") {
        Some("type_")
    } else if str_eq(key, "ref") {
        Some("ref_")
    } else if str_eq(key, "self") {
        Some("self_")
    } else if str_eq(key, "+1") {
        Some("plus_1")
    } else if str_eq(key, "-1") {
        Some("minus_1")
    } else {
        None
    };
    let pkey: &str = match renamed {
        Some(r) => {
            attr.add_attr(RustFieldAttr::Serde(SerdeFieldAttr::Rename(prop.key.clone())));
            assert(attr@ =~= seq![SerdeFieldAttrView::Rename(prop.key@)]);
            r
        },
        None => {
            assert(attr@ =~= Seq::<SerdeFieldAttrView>::empty());
            key
        },
    };
    let mut inner = ctxt.clone();
    inner.projection(pkey.to_owned());
    let mut inner = Some(inner);
    let (is_optional2, ty) = match ts_type_to_rs(st, &mut inner, &prop.type_ann, None, lkm) {
        Ok(r) => r,
        Err(e) => {
            return Err(e);
        },
    };
    is_optional = is_optional || is_optional2;
    if let TsType::LitStr(lit) = &prop.type_ann {
        lkm_insert(lkm, name, pkey.to_owned(), lit.clone());
    }
    Ok(
        RustStructMember {
            ty: RustMemberType { ty, is_optional },
            name: pkey.to_owned(),
            attr,
            comment,
        },
    )
}

/// Converts an index signature to a map field that is merged into its
/// parent.
pub fn ts_index_signature(
    index: &TsIndexSignature,
    comment: Option<RustComment>,
    st: &mut FrontendState,
    ctxt: &mut TypeConvertContext,
    lkm: &mut LiteralKeyMap,
) -> (r: Result<RustStructMember, FrontendError>)
    requires
        lkm_wf(*old(lkm)),
    ensures
        lkm_wf(*final(lkm)),
        final(ctxt)@ == old(ctxt)@,
        member_result_is(
            r,
            *final(st),
            *final(lkm),
            spec_index_signature(
                *index,
                comment_view(comment),
                fs_view(*old(st), *old(lkm)),
                old(ctxt)@,
            ),
        ),
    decreases 1 + if type_depth(index.param_type) >= type_depth(index.type_ann) {
        type_depth(index.param_type)
    } else {
        type_depth(index.type_ann)
    }, 1nat, 0nat,
{
    let mut inner = Some(ctxt.clone());
    let key_ty = match ts_type_to_rs(st, &mut inner, &index.param_type, None, lkm) {
        Ok(r) => r.1,
        Err(e) => {
            return Err(e);
        },
    };
    let value_ty = match ts_type_to_rs(st, &mut inner, &index.type_ann, None, lkm) {
        Ok(r) => r.1,
        Err(e) => {
            return Err(e);
        },
    };
    let attr = RustFieldAttrs::from_attr(RustFieldAttr::Serde(SerdeFieldAttr::Flatten));
    assert(attr@ =~= seq![SerdeFieldAttrView::Flatten]);
    Ok(
        RustStructMember {
            ty: RustMemberType {
                ty: RustType::Dict(Box::new(key_ty), Box::new(value_ty)),
                is_optional: false,
            },
            name: index.param_name.clone(),
            attr,
            comment,
        },
    )
}

/// The alternatives that are not `null`, and whether `null` is among the
/// alternatives.
fn split_null<'a>(types: &'a Vec<TsType>) -> (r: (Vec<&'a TsType>, bool))
    ensures
        type_refs_view(r.0@) == non_null(types@),
        r.1 == has_null(types@),
{
    let mut out: Vec<&'a TsType> = Vec::new();
    let mut found = false;
    let mut i: usize = 0;
    assert(types@.take(0) =~= Seq::<TsType>::empty());
    assert(type_refs_view(out@) =~= Seq::<TsType>::empty());
    while i < types.len()
        invariant
            i <= types.len(),
            type_refs_view(out@) == non_null(types@.take(i as int)),
            found == has_null(types@.take(i as int)),
        decreases types.len() - i,
    {
        let t = &types[i];
        proof {
            let a = types@.take(i as int);
            let b = types@.take(i + 1);
            assert(b.drop_last() =~= a);
            assert(b.last() == *t);
            if has_null(a) {
                let w = choose|w: int| 0 <= w < a.len() && is_null_keyword(#[trigger] a[w]);
                assert(is_null_keyword(b[w]));
            }
            if has_null(b) && !is_null_keyword(*t) {
                let w = choose|w: int| 0 <= w < b.len() && is_null_keyword(#[trigger] b[w]);
                assert(is_null_keyword(a[w]));
            }
            if is_null_keyword(*t) {
                assert(is_null_keyword(b[i as int]));
            }
        }
        if matches!(t, TsType::Keyword(TsKeywordKind::Null)) {
            found = true;
        } else {
            let ghost before = type_refs_view(out@);
            out.push(t);
            assert(type_refs_view(out@) =~= before.push(*t));
        }
        i += 1;
    }
    assert(types@.take(types.len() as int) =~= types@);
    (out, found)
}

/// The values of the alternatives, if all of them are string literals.
fn literal_values(types: &Vec<&TsType>) -> (r: Option<Vec<String>>)
    ensures
        match r {
            Some(vs) => all_lit_str(type_refs_view(types@)) && strings_view(vs@) == lit_values(
                type_refs_view(types@),
            ),
            None => !all_lit_str(type_refs_view(types@)),
        },
{
    let ghost all = type_refs_view(types@);
    let mut out: Vec<String> = Vec::new();
    let mut i: usize = 0;
    assert(strings_view(out@) =~= lit_values(all).take(0));
    while i < types.len()
        invariant
            i <= types.len(),
            all == type_refs_view(types@),
            forall|j: int| 0 <= j < i ==> (#[trigger] all[j]) is LitStr,
            strings_view(out@) == lit_values(all).take(i as int),
        decreases types.len() - i,
    {
        match types[i] {
            TsType::LitStr(v) => {
                let ghost before = strings_view(out@);
                out.push(v.clone());
                assert(strings_view(out@) =~= before.push(v@));
                assert(lit_values(all).take(i + 1) =~= lit_values(all).take(i as int).push(
                    lit_values(all)[i as int],
                ));
            },
            _ => {
                assert(!(all[i as int] is LitStr));
                return None;
            },
        }
        i += 1;
    }
    assert(lit_values(all).take(types.len() as int) =~= lit_values(all));
    Some(out)
}

/// The members of the alternatives, if all of them are object types.
fn literal_members<'a>(types: &Vec<&'a TsType>) -> (r: Option<Vec<&'a Vec<TsTypeElement>>>)
    ensures
        match r {
            Some(vs) => all_type_lit(type_refs_view(types@)) && variants_view(vs@) == lit_members(
                type_refs_view(types@),
            ),
            None => !all_type_lit(type_refs_view(types@)),
        },
{
    let ghost all = type_refs_view(types@);
    let mut out: Vec<&'a Vec<TsTypeElement>> = Vec::new();
    let mut i: usize = 0;
    assert(variants_view(out@) =~= lit_members(all).take(0));
    while i < types.len()
        invariant
            i <= types.len(),
            all == type_refs_view(types@),
            forall|j: int| 0 <= j < i ==> (#[trigger] all[j]) is TypeLit,
            variants_view(out@) == lit_members(all).take(i as int),
        decreases types.len() - i,
    {
        match types[i] {
            TsType::TypeLit(m) => {
                let ghost before = variants_view(out@);
                out.push(m);
                assert(variants_view(out@) =~= before.push(m@));
                assert(lit_members(all).take(i + 1) =~= lit_members(all).take(i as int).push(
                    lit_members(all)[i as int],
                ));
            },
            _ => {
                assert(!(all[i as int] is TypeLit));
                return None;
            },
        }
        i += 1;
    }
    assert(lit_members(all).take(types.len() as int) =~= lit_members(all));
    Some(out)
}

fn members_all_unknown(members: &Vec<RustStructMember>) -> (r: bool)
    ensures
        r == all_unknown(members@.map_values(|m: RustStructMember| m@)),
{
    let ghost views = members@.map_values(|m: RustStructMember| m@);
    let mut i: usize = 0;
    while i < members.len()
        invariant
            i <= members.len(),
            views == members@.map_values(|m: RustStructMember| m@),
            forall|j: int| 0 <= j < i ==> (#[trigger] views[j]).ty.ty.is_unknown(),
        decreases members.len() - i,
    {
        if !members[i].ty.is_unknown() {
            assert(!views[i as int].ty.ty.is_unknown());
            return false;
        }
        i += 1;
    }
    true
}

fn untagged() -> (r: RustContainerAttrs)
    ensures
        r@ == seq![SerdeContainerAttrView::Untagged],
{
    let r = RustContainerAttrs::from_attr(RustStructAttr::Serde(SerdeContainerAttr::Untagged));
    assert(r@ =~= seq![SerdeContainerAttrView::Untagged]);
    r
}

fn flatten_field(name: String, ty: RustType, comment: Option<RustComment>) -> (r: RustStructMember)
    ensures
        r@ == super::model::flatten_member(name@, ty@, comment_view(comment)),
{
    let attr = RustFieldAttrs::from_attr(RustFieldAttr::Serde(SerdeFieldAttr::Flatten));
    assert(attr@ =~= seq![SerdeFieldAttrView::Flatten]);
    RustStructMember { attr, name, ty: RustMemberType { ty, is_optional: false }, comment }
}

/// Converts a union or an intersection.
pub fn union_or_intersection(
    st: &mut FrontendState,
    ctxt: Option<TypeConvertContext>,
    tsuoi: &TsType,
    comment: Option<RustComment>,
    nullable: &mut bool,
    lkm: &mut LiteralKeyMap,
) -> (r: Result<RustType, FrontendError>)
    requires
        lkm_wf(*old(lkm)),
    ensures
        lkm_wf(*final(lkm)),
        union_result_is(
            r,
            *final(st),
            *final(lkm),
            *old(nullable),
            *final(nullable),
            spec_union_or_intersection(
                fs_view(*old(st), *old(lkm)),
                opt_ctx_view(ctxt),
                *tsuoi,
                comment_view(comment),
            ),
        ),
    decreases type_depth(*tsuoi), 0nat, 0nat,
{
    let ghost fs0 = fs_view(*st, *lkm);
    let ghost expected = spec_union_or_intersection(
        fs0,
        opt_ctx_view(ctxt),
        *tsuoi,
        comment_view(comment),
    );
    let mut cx = ctxt;
    match tsuoi {
        TsType::Union(all_types) => {
            let (types, found_null) = split_null(all_types);
            let ghost nn = type_refs_view(types@);
            proof {
                lemma_non_null(all_types@);
                if nn.len() > 0 {
                    lemma_types_depth(nn, 0);
                }
            }
            if found_null {
                *nullable = true;
            }
            if types.len() == 0 {
                return Err(FrontendError::EmptyUnion);
            }
            if types.len() == 1 {
                return match ts_type_to_rs(st, &mut cx, types[0], comment, lkm) {
                    Ok((n, t)) => {
                        if n {
                            *nullable = true;
                        }
                        Ok(t)
                    },
                    Err(e) => Err(e),
                };
            }
            if let Some(values) = literal_values(&types) {
                let sorted = sort_strings(values);
                return match cx {
                    None => Err(FrontendError::MissingContext),
                    Some(mut ct) => {
                        let tn = string_literal_union(st, sorted, comment, &mut ct);
                        Ok(RustType::Custom(tn))
                    },
                };
            }
            if let Some(variants) = literal_members(&types) {
                let mut ct = match cx {
                    None => {
                        return Err(FrontendError::MissingContext);
                    },
                    Some(ct) => ct,
                };
                proof {
                    lemma_lit_members_depth(nn);
                    lemma_merge_depth(lit_members(nn));
                }
                let merged = merge_union_type_lits(&variants);
                let ghost mv = merged@;
                let Merged { intersection, diffs } = merged;
                let mut s = match type_literal(st, &intersection, None, &mut ct, lkm) {
                    Ok(s) => s,
                    Err(e) => {
                        return Err(e);
                    },
                };
                let ghost base = spec_type_literal(fs0, opt_ctx_view(ctxt)->0, mv.intersection, None)->Ok_0;
                assert(spec_diff_structs(base.st, base.ctx, mv.diffs) is Err ==> expected is Err
                    && expected->Err_0 == spec_diff_structs(base.st, base.ctx, mv.diffs)->Err_0);
                let mut member: Vec<RustEnumMember> = Vec::new();
                let mut i: usize = 0;
                assert(mv.diffs.take(0) =~= Seq::<Seq<TsTypeElement>>::empty());
                assert(member@.map_values(|m: RustEnumMember| m@) =~= Seq::<RustEnumMemberView>::empty());
                while i < diffs.len()
                    invariant
                        i <= diffs.len(),
                        mv.diffs == refs_lists_view(diffs@),
                        lists_depth(mv.diffs) < type_depth(*tsuoi),
                        lkm_wf(*lkm),
                        expected == spec_union_or_intersection(
                            fs_view(*old(st), *old(lkm)),
                            opt_ctx_view(ctxt),
                            *tsuoi,
                            comment_view(comment),
                        ),
                        spec_diff_structs(base.st, base.ctx, mv.diffs) is Err ==> expected is Err
                            && expected->Err_0 == spec_diff_structs(base.st, base.ctx, mv.diffs)->Err_0,
                        spec_diff_structs(base.st, base.ctx, mv.diffs.take(i as int)) == Ok::<
                            DiffsOut,
                            FrontendError,
                        >(
                            DiffsOut {
                                st: fs_view(*st, *lkm),
                                ctx: ct@,
                                variants: member@.map_values(|m: RustEnumMember| m@),
                            },
                        ),
                    decreases diffs.len() - i,
                {
                    proof {
                        assert(mv.diffs.take(i + 1).drop_last() =~= mv.diffs.take(i as int));
                        assert(mv.diffs.take(i + 1).last() == refs_view(diffs@[i as int]@));
                        lemma_lists_depth(mv.diffs, i as int);
                    }
                    let d = match type_literal(st, &diffs[i], None, &mut ct, lkm) {
                        Ok(d) => d,
                        Err(e) => {
                            proof {
                                lemma_diffs_err(base.st, base.ctx, mv.diffs, i + 1);
                            }
                            return Err(e);
                        },
                    };
                    let ty = st.push_segment(RustSegment::Struct(d));
                    let ghost before = member@.map_values(|m: RustEnumMember| m@);
                    let variant = RustEnumMember::from_kind(RustEnumMemberKind::Unary(ty));
                    assert(variant.attr@ =~= Seq::empty());
                    member.push(variant);
                    assert(member@.map_values(|m: RustEnumMember| m@) =~= before.push(variant@));
                    i += 1;
                }
                assert(mv.diffs.take(diffs.len() as int) =~= mv.diffs);
                let mut additional: Vec<String> = Vec::new();
                additional.push("DistinctUnion".to_owned());
                assert(strings_view(additional@) =~= seq!["DistinctUnion"@]);
                let enum_name = ct.create_ident_with(Some(additional));
                let ty = st.push_segment(
                    RustSegment::Enum(
                        RustEnum {
                            name: enum_name,
                            attr: untagged(),
                            comment: None,
                            is_borrowed: false,
                            member,
                        },
                    ),
                );
                let ghost members0 = s@.member;
                s.member.push(flatten_field("distinct".to_owned(), ty, comment));
                assert(s@.member =~= members0.push(
                    super::model::flatten_member(
                        "distinct"@,
                        super::state::custom(enum_name@),
                        comment_view(comment),
                    ),
                ));
                return Ok(st.push_segment(RustSegment::Struct(s)));
            }
            let mut ct = match cx {
                None => {
                    return Err(FrontendError::MissingContext);
                },
                Some(ct) => ct,
            };
            let mut name = ct.create_ident();
            if !ct.from_alias {
                let ghost base = name@;
                let suffix = crate::text::chars_of("Union");
                let mut k: usize = 0;
                assert(base + suffix@.take(0) =~= base);
                while k < suffix.len()
                    invariant
                        k <= suffix.len(),
                        name@ == base + suffix@.take(k as int),
                    decreases suffix.len() - k,
                {
                    name.push(suffix[k]);
                    assert(base + suffix@.take(k + 1) =~= (base + suffix@.take(k as int)).push(
                        suffix@[k as int],
                    ));
                    k += 1;
                }
                assert(suffix@.take(suffix.len() as int) =~= suffix@);
            }
            let ghost ctx1 = Some(ct@);
            let mut inner = Some(ct);
            assert(spec_variants(fs0, ctx1, nn) is Err ==> expected is Err && expected->Err_0
                == spec_variants(fs0, ctx1, nn)->Err_0);
            let mut variants: Vec<RustEnumMember> = Vec::new();
            let mut i: usize = 0;
            assert(nn.take(0) =~= Seq::<TsType>::empty());
            assert(variants@.map_values(|m: RustEnumMember| m@) =~= Seq::<RustEnumMemberView>::empty());
            while i < types.len()
                invariant
                    i <= types.len(),
                    nn == type_refs_view(types@),
                    types_depth(nn) < type_depth(*tsuoi),
                    lkm_wf(*lkm),
                    expected == spec_union_or_intersection(
                        fs_view(*old(st), *old(lkm)),
                        opt_ctx_view(ctxt),
                        *tsuoi,
                        comment_view(comment),
                    ),
                    spec_variants(fs0, ctx1, nn) is Err ==> expected is Err && expected->Err_0
                        == spec_variants(fs0, ctx1, nn)->Err_0,
                    spec_variants(fs0, ctx1, nn.take(i as int)) == Ok::<VariantsOut, FrontendError>(
                        VariantsOut {
                            st: fs_view(*st, *lkm),
                            ctx: opt_ctx_view(inner),
                            variants: variants@.map_values(|m: RustEnumMember| m@),
                        },
                    ),
                decreases types.len() - i,
            {
                proof {
                    assert(nn.take(i + 1).drop_last() =~= nn.take(i as int));
                    assert(nn.take(i + 1).last() == *types@[i as int]);
                    lemma_types_depth(nn, i as int);
                }
                let t = match ts_type_to_rs(st, &mut inner, types[i], None, lkm) {
                    Ok(r) => r.1,
                    Err(e) => {
                        proof {
                            lemma_variants_err(fs0, ctx1, nn, i + 1);
                        }
                        return Err(e);
                    },
                };
                let ghost before = variants@.map_values(|m: RustEnumMember| m@);
                let attr = RustVariantAttrs::new();
                assert(attr@ =~= Seq::empty());
                let variant = RustEnumMember { attr, kind: RustEnumMemberKind::Unary(t) };
                variants.push(variant);
                assert(variants@.map_values(|m: RustEnumMember| m@) =~= before.push(variant@));
                i += 1;
            }
            assert(nn.take(types.len() as int) =~= nn);
            let result = RustType::Custom(TypeName::new(name.clone()));
            st.add_segment(
                RustSegment::Enum(
                    RustEnum { attr: untagged(), name, comment, is_borrowed: false, member: variants },
                ),
            );
            Ok(result)
        },
        TsType::Intersection(types) => {
            if types.len() == 2 {
                if let (TsType::TypeRef(name), TsType::TypeLit(members)) = (&types[0], &types[1]) {
                    proof {
                        lemma_types_depth(types@, 1);
                    }
                    let mut ct = match cx {
                        None => {
                            return Err(FrontendError::MissingContext);
                        },
                        Some(ct) => ct,
                    };
                    let refs = super::merge_union_type_lits::refs_of(members);
                    let mut record = match type_literal(st, &refs, None, &mut ct, lkm) {
                        Ok(s) => s,
                        Err(e) => {
                            return Err(e);
                        },
                    };
                    if members_all_unknown(&record.member) {
                        let struct_name = record.name.clone();
                        st.add_segment(
                            RustSegment::Alias(
                                RustAlias {
                                    name: struct_name.clone(),
                                    is_borrowed: false,
                                    comment: None,
                                    ty: RustType::Custom(TypeName::new(name.clone())),
                                },
                            ),
                        );
                        return Ok(RustType::Custom(TypeName::new(struct_name)));
                    } else {
                        let field_name = to_snake(name.as_str());
                        let ghost members0 = record@.member;
                        record.member.push(
                            flatten_field(
                                field_name,
                                RustType::Custom(TypeName::new(name.clone())),
                                comment,
                            ),
                        );
                        assert(record@.member =~= members0.push(
                            super::model::flatten_member(
                                crate::text::snake_of(name@),
                                super::state::custom(name@),
                                comment_view(comment),
                            ),
                        ));
                        let struct_name = record.name.clone();
                        st.add_segment(RustSegment::Struct(record));
                        return Ok(RustType::Custom(TypeName::new(struct_name)));
                    }
                }
            }
            Ok(RustType::UnknownIntersection)
        },
        _ => Ok(RustType::Unknown),
    }
}

} // verus!
