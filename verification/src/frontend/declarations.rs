//! The conversion of whole declarations and of a module.

use vstd::prelude::*;
use crate::ast::{
    opt_view, Decl, TsInterfaceDecl, TsType, TsTypeAliasDecl, TsTypeElement,
};
use crate::docs::strip_docs;
use crate::ir::{
    comment_view, lkm_view, lkm_wf, segments_view, LiteralKeyMap, RustAlias, RustAliasView,
    RustComment, RustSegment, RustSegmentView, RustStruct, RustStructMember, RustStructMemberView,
    RustStructView, RustType, RustTypeView, SerdeContainerAttrView, TypeName,
};
use crate::lexical::strings_view;
use crate::strmap::StringMap;
use crate::text::str_eq;
use super::context::{CtxView, TypeConvertContext};
use super::convert::{ts_prop_signature, ts_type_to_rs, union_or_intersection};
use super::model::{
    spec_prop_signature, spec_type_to_rs, spec_union_or_intersection, stripped, MembersOut,
};
use super::state::{custom, fs_view, FrontendError, FrontendState, Fs};

verus! {

/// The fields of the members of an interface, in order. Every member has
/// to be a property.
pub open spec fn spec_interface_members(
    st: Fs,
    ctx: CtxView,
    name: Seq<char>,
    body: Seq<TsTypeElement>,
) -> Result<MembersOut, FrontendError>
    decreases body.len(),
{
    if body.len() == 0 {
        Ok(MembersOut { st, members: Seq::empty() })
    } else {
        match spec_interface_members(st, ctx, name, body.drop_last()) {
            Err(e) => Err(e),
            Ok(r) => match body.last() {
                TsTypeElement::Property(p) => match spec_prop_signature(p, r.st, ctx, name) {
                    Err(e) => Err(e),
                    Ok(m) => Ok(MembersOut { st: m.st, members: r.members.push(m.member) }),
                },
                _ => Err(FrontendError::UnsupportedMember),
            },
        }
    }
}

pub proof fn lemma_interface_members_err(
    st: Fs,
    ctx: CtxView,
    name: Seq<char>,
    body: Seq<TsTypeElement>,
    i: int,
)
    requires
        0 <= i <= body.len(),
        spec_interface_members(st, ctx, name, body.take(i)) is Err,
    ensures
        spec_interface_members(st, ctx, name, body) == spec_interface_members(st, ctx, name, body.take(i)),
    decreases body.len() - i,
{
    if i < body.len() {
        assert(body.take(i + 1).drop_last() =~= body.take(i));
        lemma_interface_members_err(st, ctx, name, body, i + 1);
    } else {
        assert(body.take(i) =~= body);
    }
}

/// What converting an interface adds: one record of its name, after the
/// segments of the anonymous types of its properties.
pub open spec fn spec_interface2struct(st: Fs, interface: TsInterfaceDecl, comment: Option<Seq<char>>) -> Result<
    Fs,
    FrontendError,
> {
    match spec_interface_members(
        st,
        CtxView::of_path(seq![interface.name@]),
        interface.name@,
        interface.body@,
    ) {
        Err(e) => Err(e),
        Ok(m) => Ok(
            m.st.push(
                RustSegmentView::Struct(
                    RustStructView {
                        attr: Seq::empty(),
                        name: interface.name@,
                        comment,
                        is_borrowed: false,
                        member: m.members,
                    },
                ),
            ),
        ),
    }
}

/// The context of the right-hand side of the declaration `name`: the name
/// is granted to the first type that needs one.
pub open spec fn granted_ctx(name: Seq<char>, from_alias: bool) -> CtxView {
    CtxView { path: seq![name], granted_name: Some(name), from_alias, duplicate_counter: 0 }
}

/// What converting a union or intersection under the name `name` adds.
pub open spec fn spec_tunion2enum(
    st: Fs,
    name: Seq<char>,
    tsuoi: TsType,
    comment: Option<Seq<char>>,
    from_alias: bool,
) -> Result<Fs, FrontendError> {
    match spec_union_or_intersection(st, Some(granted_ctx(name, from_alias)), tsuoi, comment) {
        Err(e) => Err(e),
        Ok(u) => Ok(u.st),
    }
}

pub open spec fn alias_segment(name: Seq<char>, comment: Option<Seq<char>>, ty: RustTypeView) -> RustSegmentView {
    RustSegmentView::Alias(RustAliasView { name, is_borrowed: false, comment, ty })
}

/// What converting a type alias adds.
pub open spec fn spec_alias(st: Fs, alias: TsTypeAliasDecl) -> Result<Fs, FrontendError> {
    let comment = stripped(opt_view(alias.comment));
    if alias.name@ == "WebhookEvents"@ {
        Ok(
            st.push(
                alias_segment(
                    "WebhookEvents"@,
                    comment,
                    RustTypeView::Array(Box::new(RustTypeView::String { is_borrowed: false })),
                ),
            ),
        )
    } else {
        match alias.type_ann {
            TsType::TypeRef(rhs) => Ok(st.push(alias_segment(alias.name@, comment, custom(rhs@)))),
            TsType::Union(_) | TsType::Intersection(_) => spec_tunion2enum(
                st,
                alias.name@,
                alias.type_ann,
                comment,
                true,
            ),
            TsType::Keyword(_) | TsType::Array(_) => match spec_type_to_rs(st, None, alias.type_ann, None) {
                Err(e) => Err(e),
                Ok(r) => Ok(r.st.push(alias_segment(alias.name@, comment, r.ty))),
            },
            TsType::TypeOperator => Ok(st),
            _ => Err(FrontendError::UnsupportedAlias),
        }
    }
}

/// What converting a declaration adds.
pub open spec fn spec_decl(st: Fs, decl: Decl) -> Result<Fs, FrontendError> {
    match decl {
        Decl::Interface(i) => spec_interface2struct(st, i, stripped(opt_view(i.comment))),
        Decl::TypeAlias(a) => spec_alias(st, a),
        Decl::Other => Err(FrontendError::UnsupportedDeclaration),
    }
}

/// The state after converting the declarations in order, from nothing.
pub open spec fn spec_module(decls: Seq<Decl>) -> Result<Fs, FrontendError>
    decreases decls.len(),
{
    if decls.len() == 0 {
        Ok(Fs::empty())
    } else {
        match spec_module(decls.drop_last()) {
            Err(e) => Err(e),
            Ok(st) => spec_decl(st, decls.last()),
        }
    }
}

pub proof fn lemma_module_err(decls: Seq<Decl>, i: int)
    requires
        0 <= i <= decls.len(),
        spec_module(decls.take(i)) is Err,
    ensures
        spec_module(decls) == spec_module(decls.take(i)),
    decreases decls.len() - i,
{
    if i < decls.len() {
        assert(decls.take(i + 1).drop_last() =~= decls.take(i));
        lemma_module_err(decls, i + 1);
    } else {
        assert(decls.take(i) =~= decls);
    }
}

/// The result of a conversion that only adds to the state.
pub open spec fn state_result_is(
    r: Result<(), FrontendError>,
    st: FrontendState,
    lkm: LiteralKeyMap,
    expected: Result<Fs, FrontendError>,
) -> bool {
    match expected {
        Ok(out) => r is Ok && fs_view(st, lkm) == out,
        Err(e) => r is Err && r->Err_0 == e,
    }
}

fn prose(comment: &Option<String>) -> (r: Option<RustComment>)
    ensures
        comment_view(r) == stripped(opt_view(*comment)),
{
    match comment {
        Some(text) => Some(strip_docs(text.as_str())),
        None => None,
    }
}

/// Converts an interface to a record and adds it.
pub fn interface2struct(
    st: &mut FrontendState,
    interface: &TsInterfaceDecl,
    comment: Option<RustComment>,
    lkm: &mut LiteralKeyMap,
) -> (r: Result<(), FrontendError>)
    requires
        lkm_wf(*old(lkm)),
    ensures
        lkm_wf(*final(lkm)),
        state_result_is(
            r,
            *final(st),
            *final(lkm),
            spec_interface2struct(fs_view(*old(st), *old(lkm)), *interface, comment_view(comment)),
        ),
{
    let ghost fs0 = fs_view(*st, *lkm);
    let ghost body = interface.body@;
    let mut path: Vec<String> = Vec::new();
    path.push(interface.name.clone());
    assert(strings_view(path@) =~= seq![interface.name@]);
    let mut ctxt = TypeConvertContext::from_path(path);
    let ghost ctx = ctxt@;
    let ghost whole = spec_interface_members(fs0, ctx, interface.name@, body);
    let mut member: Vec<RustStructMember> = Vec::new();
    let mut i: usize = 0;
    assert(body.take(0) =~= Seq::<TsTypeElement>::empty());
    assert(member@.map_values(|m: RustStructMember| m@) =~= Seq::<RustStructMemberView>::empty());
    while i < interface.body.len()
        invariant
            i <= interface.body.len(),
            body == interface.body@,
            lkm_wf(*lkm),
            ctxt@ == ctx,
            ctx == CtxView::of_path(seq![interface.name@]),
            fs0 == fs_view(*old(st), *old(lkm)),
            spec_interface_members(fs0, ctx, interface.name@, body.take(i as int)) == Ok::<
                MembersOut,
                FrontendError,
            >(
                MembersOut {
                    st: fs_view(*st, *lkm),
                    members: member@.map_values(|m: RustStructMember| m@),
                },
            ),
        decreases interface.body.len() - i,
    {
        proof {
            assert(body.take(i + 1).drop_last() =~= body.take(i as int));
            assert(body.take(i + 1).last() == interface.body@[i as int]);
        }
        let ghost before = member@.map_values(|m: RustStructMember| m@);
        match &interface.body[i] {
            TsTypeElement::Property(p) => {
                match ts_prop_signature(p, st, &mut ctxt, interface.name.as_str(), lkm) {
                    Ok(m) => {
                        member.push(m);
                        assert(member@.map_values(|m: RustStructMember| m@) =~= before.push(m@));
                    },
                    Err(e) => {
                        proof {
                            lemma_interface_members_err(fs0, ctx, interface.name@, body, i + 1);
                        }
                        return Err(e);
                    },
                }
            },
            _ => {
                proof {
                    lemma_interface_members_err(fs0, ctx, interface.name@, body, i + 1);
                }
                return Err(FrontendError::UnsupportedMember);
            },
        }
        i += 1;
    }
    assert(body.take(interface.body.len() as int) =~= body);
    let s = RustStruct::from_members(interface.name.clone(), comment, member);
    assert(s.attr@ =~= Seq::<SerdeContainerAttrView>::empty());
    st.add_segment(RustSegment::Struct(s));
    Ok(())
}

/// Converts a union or an intersection that is declared under the name
/// `name`, and adds what it becomes.
pub fn tunion2enum(
    st: &mut FrontendState,
    name: &str,
    tsuoi: &TsType,
    comment: Option<RustComment>,
    lkm: &mut LiteralKeyMap,
    from_alias: bool,
) -> (r: Result<(), FrontendError>)
    requires
        lkm_wf(*old(lkm)),
    ensures
        lkm_wf(*final(lkm)),
        state_result_is(
            r,
            *final(st),
            *final(lkm),
            spec_tunion2enum(
                fs_view(*old(st), *old(lkm)),
                name@,
                *tsuoi,
                comment_view(comment),
                from_alias,
            ),
        ),
{
    let mut path: Vec<String> = Vec::new();
    path.push(name.to_owned());
    assert(strings_view(path@) =~= seq![name@]);
    let ctxt = TypeConvertContext {
        path,
        granted_name: Some(name.to_owned()),
        from_alias,
        duplicate_counter: 0,
    };
    let mut nullable = false;
    match union_or_intersection(st, Some(ctxt), tsuoi, comment, &mut nullable, lkm) {
        Ok(_) => Ok(()),
        Err(e) => Err(e),
    }
}

/// Converts a declaration and adds what it becomes.
pub fn convert_decl(st: &mut FrontendState, decl: &Decl, lkm: &mut LiteralKeyMap) -> (r: Result<
    (),
    FrontendError,
>)
    requires
        lkm_wf(*old(lkm)),
    ensures
        lkm_wf(*final(lkm)),
        state_result_is(r, *final(st), *final(lkm), spec_decl(fs_view(*old(st), *old(lkm)), *decl)),
{
    match decl {
        Decl::Interface(interface) => {
            let comment = prose(&interface.comment);
            interface2struct(st, interface, comment, lkm)
        },
        Decl::TypeAlias(talias) => {
            let comment = prose(&talias.comment);
            let ident = talias.name.as_str();
            if str_eq(ident, "WebhookEvents") {
                let text = RustType::String { is_borrowed: false };
                assert(text@ == RustTypeView::String { is_borrowed: false });
                let ty = RustType::Array(Box::new(text));
                assert(ty@ == RustTypeView::Array(Box::new(text@)));
                let seg = RustSegment::Alias(
                    RustAlias { name: "WebhookEvents".to_owned(), is_borrowed: false, comment, ty },
                );
                st.add_segment(seg);
                return Ok(());
            }
            match &talias.type_ann {
                TsType::TypeRef(rhs) => {
                    st.add_segment(
                        RustSegment::Alias(
                            RustAlias {
                                name: talias.name.clone(),
                                is_borrowed: false,
                                comment,
                                ty: RustType::Custom(TypeName { name: rhs.clone(), is_borrowed: false }),
                            },
                        ),
                    );
                    Ok(())
                },
                TsType::Union(_) | TsType::Intersection(_) => tunion2enum(
                    st,
                    ident,
                    &talias.type_ann,
                    comment,
                    lkm,
                    true,
                ),
                TsType::Keyword(_) | TsType::Array(_) => {
                    let mut none: Option<TypeConvertContext> = None;
                    match ts_type_to_rs(st, &mut none, &talias.type_ann, None, lkm) {
                        Ok(r) => {
                            st.add_segment(
                                RustSegment::Alias(
                                    RustAlias {
                                        name: talias.name.clone(),
                                        is_borrowed: false,
                                        comment,
                                        ty: r.1,
                                    },
                                ),
                            );
                            Ok(())
                        },
                        Err(e) => Err(e),
                    }
                },
                TsType::TypeOperator => Ok(()),
                _ => Err(FrontendError::UnsupportedAlias),
            }
        },
        Decl::Other => Err(FrontendError::UnsupportedDeclaration),
    }
}

/// The names that the front end makes are determined by the declarations:
/// converting the same declarations twice, each time from nothing, gives
/// the same segments under the same names, or the same error.
pub proof fn lemma_conversion_is_repeatable(
    decls: Vec<Decl>,
    first: Result<(Vec<RustSegment>, LiteralKeyMap), FrontendError>,
    second: Result<(Vec<RustSegment>, LiteralKeyMap), FrontendError>,
)
    requires
        call_ensures(convert_module, (&decls,), first),
        call_ensures(convert_module, (&decls,), second),
    ensures
        match (first, second) {
            (Ok(a), Ok(b)) => segments_view(a.0@) == segments_view(b.0@) && lkm_view(a.1) == lkm_view(
                b.1,
            ),
            (Err(a), Err(b)) => a == b,
            _ => false,
        },
{
}

/// Converts the declarations of a module in order, from nothing: returns
/// the segments and the literal key map.
pub fn convert_module(decls: &Vec<Decl>) -> (r: Result<(Vec<RustSegment>, LiteralKeyMap), FrontendError>)
    ensures
        match spec_module(decls@) {
            Ok(out) => r is Ok && segments_view(r->Ok_0.0@) == out.segments && lkm_view(r->Ok_0.1)
                == out.lits && lkm_wf(r->Ok_0.1),
            Err(e) => r is Err && r->Err_0 == e,
        },
{
    let mut st = FrontendState::new();
    let mut lkm: LiteralKeyMap = StringMap::new();
    proof {
        assert(lkm_view(lkm) =~= Map::empty());
        assert(segments_view(st.segments@) =~= Seq::<RustSegmentView>::empty());
        assert(decls@.take(0) =~= Seq::<Decl>::empty());
    }
    let mut i: usize = 0;
    while i < decls.len()
        invariant
            i <= decls.len(),
            lkm_wf(lkm),
            spec_module(decls@.take(i as int)) == Ok::<Fs, FrontendError>(fs_view(st, lkm)),
        decreases decls.len() - i,
    {
        proof {
            assert(decls@.take(i + 1).drop_last() =~= decls@.take(i as int));
            assert(decls@.take(i + 1).last() == decls@[i as int]);
        }
        match convert_decl(&mut st, &decls[i], &mut lkm) {
            Ok(()) => {},
            Err(e) => {
                proof {
                    lemma_module_err(decls@, i + 1);
                }
                return Err(e);
            },
        }
        i += 1;
    }
    assert(decls@.take(decls.len() as int) =~= decls@);
    Ok((st.segments, lkm))
}

} // verus!
