//! The emitter: from finished segments to the tokens of Rust declarations.

use vstd::prelude::*;
use proc_macro2::TokenStream;
use crate::ir::{
    RustAlias, RustAliasView, RustComment, RustContainerAttrs, RustEnum, RustEnumMember,
    RustEnumMemberKind, RustEnumMemberKindView, RustEnumMemberView, RustEnumView, RustFieldAttr,
    RustFieldAttrs, RustMemberType, RustMemberTypeView, RustSegment, RustSegmentView, RustStruct,
    RustStructAttr, RustStructMember, RustStructMemberView, RustStructView, RustType, RustTypeView,
    RustVariantAttr, RustVariantAttrs, SerdeContainerAttr, SerdeContainerAttrView, SerdeFieldAttr,
    SerdeFieldAttrView, SerdeVariantAttr, SerdeVariantAttrView, TypeName, TypeNameView, comment_view,
};
use crate::tokens::{
    is_ident, is_ident_str, push_group, push_ident, push_punct, push_string, stream_tokens, Delim,
    Token,
};

verus! {

pub open spec fn ident(s: Seq<char>) -> Seq<Token> {
    seq![Token::Ident(s)]
}

pub open spec fn punct(c: char) -> Seq<Token> {
    seq![Token::Punct(c, false)]
}

pub open spec fn string(s: Seq<char>) -> Seq<Token> {
    seq![Token::Str(s)]
}

pub open spec fn group(d: Delim, inner: Seq<Token>) -> Seq<Token> {
    seq![Token::Group(d, inner)]
}

/// The lifetime `'a`.
pub open spec fn lifetime_a() -> Seq<Token> {
    seq![Token::Punct('\'', true), Token::Ident("a"@)]
}

/// `<'a>` on what borrows, nothing on what does not.
pub open spec fn generics(is_borrowed: bool) -> Seq<Token> {
    if is_borrowed {
        punct('<') + lifetime_a() + punct('>')
    } else {
        Seq::empty()
    }
}

/// `::`
pub open spec fn path_sep() -> Seq<Token> {
    seq![Token::Punct(':', true), Token::Punct(':', false)]
}

/// `#[name(inner)]`
pub open spec fn attribute(name: Seq<char>, inner: Seq<Token>) -> Seq<Token> {
    punct('#') + group(Delim::Bracket, ident(name) + group(Delim::Parenthesis, inner))
}

/// `key = "value"`
pub open spec fn key_value(key: Seq<char>, value: Seq<char>) -> Seq<Token> {
    ident(key) + punct('=') + string(value)
}

pub open spec fn type_name_tokens(n: TypeNameView) -> Seq<Token> {
    ident(n.name) + generics(n.is_borrowed)
}

/// The tokens of a type expression.
pub open spec fn type_tokens(ty: RustTypeView) -> Seq<Token>
    decreases ty,
{
    match ty {
        RustTypeView::String { is_borrowed } => if is_borrowed {
            path_sep() + ident("std"@) + path_sep() + ident("borrow"@) + path_sep() + ident("Cow"@)
                + punct('<') + lifetime_a() + punct(',') + ident("str"@) + punct('>')
        } else {
            ident("String"@)
        },
        RustTypeView::Number => ident("usize"@),
        RustTypeView::Boolean => ident("bool"@),
        RustTypeView::Custom(n) => type_name_tokens(n),
        RustTypeView::Array(t) => ident("Vec"@) + punct('<') + type_tokens(*t) + punct('>'),
        RustTypeView::Unit => group(Delim::Parenthesis, Seq::empty()),
        RustTypeView::Unknown => ident("Value"@),
        RustTypeView::UnknownLiteral => ident("UnknownLiteral"@),
        RustTypeView::UnknownIntersection => ident("UnknownIntersection"@),
        RustTypeView::Dict(k, v) => ident("HashMap"@) + punct('<') + type_tokens(*k) + punct(',')
            + type_tokens(*v) + punct('>'),
    }
}

pub open spec fn member_type_tokens(m: RustMemberTypeView) -> Seq<Token> {
    if m.is_optional {
        ident("Option"@) + punct('<') + type_tokens(m.ty) + punct('>')
    } else {
        type_tokens(m.ty)
    }
}

/// `#[doc = "..."]` for a comment, nothing without one.
pub open spec fn comment_tokens(c: Option<Seq<char>>) -> Seq<Token> {
    match c {
        Some(text) => punct('#') + group(Delim::Bracket, ident("doc"@) + punct('=') + string(text)),
        None => Seq::empty(),
    }
}

pub open spec fn container_attr_tokens(a: SerdeContainerAttrView) -> Seq<Token> {
    attribute(
        "serde"@,
        match a {
            SerdeContainerAttrView::RenameAll(r) => key_value("rename_all"@, r.serde_name()),
            SerdeContainerAttrView::Tag(name) => key_value("tag"@, name),
            SerdeContainerAttrView::Untagged => ident("untagged"@),
        },
    )
}

pub open spec fn field_attr_tokens(a: SerdeFieldAttrView) -> Seq<Token> {
    attribute(
        "serde"@,
        match a {
            SerdeFieldAttrView::Rename(s) => key_value("rename"@, s),
            SerdeFieldAttrView::Borrow => key_value("borrow"@, "'a"@),
            SerdeFieldAttrView::Flatten => ident("flatten"@),
        },
    )
}

pub open spec fn variant_attr_tokens(a: SerdeVariantAttrView) -> Seq<Token> {
    attribute(
        "serde"@,
        match a {
            SerdeVariantAttrView::Rename(s) => key_value("rename"@, s),
            SerdeVariantAttrView::Borrow => key_value("borrow"@, "'a"@),
        },
    )
}

pub open spec fn container_attrs_tokens(attrs: Seq<SerdeContainerAttrView>) -> Seq<Token>
    decreases attrs.len(),
{
    if attrs.len() == 0 {
        Seq::empty()
    } else {
        container_attrs_tokens(attrs.drop_last()) + container_attr_tokens(attrs.last())
    }
}

pub open spec fn field_attrs_tokens(attrs: Seq<SerdeFieldAttrView>) -> Seq<Token>
    decreases attrs.len(),
{
    if attrs.len() == 0 {
        Seq::empty()
    } else {
        field_attrs_tokens(attrs.drop_last()) + field_attr_tokens(attrs.last())
    }
}

pub open spec fn variant_attrs_tokens(attrs: Seq<SerdeVariantAttrView>) -> Seq<Token>
    decreases attrs.len(),
{
    if attrs.len() == 0 {
        Seq::empty()
    } else {
        variant_attrs_tokens(attrs.drop_last()) + variant_attr_tokens(attrs.last())
    }
}

/// The tokens of a record field. A field whose type holds a placeholder
/// cannot be represented and is left out.
pub open spec fn struct_member_tokens(m: RustStructMemberView) -> Seq<Token> {
    if m.ty.ty.is_unknown() {
        Seq::empty()
    } else {
        comment_tokens(m.comment) + field_attrs_tokens(m.attr) + ident("pub"@) + ident(m.name)
            + punct(':') + member_type_tokens(m.ty) + punct(',')
    }
}

pub open spec fn struct_members_tokens(ms: Seq<RustStructMemberView>) -> Seq<Token>
    decreases ms.len(),
{
    if ms.len() == 0 {
        Seq::empty()
    } else {
        struct_members_tokens(ms.drop_last()) + struct_member_tokens(ms.last())
    }
}

/// `#[derive(Debug, Deserialize)]`, or `#[derive(Debug)]`.
pub open spec fn derive_tokens(deserialize: bool) -> Seq<Token> {
    attribute(
        "derive"@,
        if deserialize {
            ident("Debug"@) + punct(',') + ident("Deserialize"@)
        } else {
            ident("Debug"@)
        },
    )
}

pub open spec fn struct_tokens(s: RustStructView) -> Seq<Token> {
    derive_tokens(true) + container_attrs_tokens(s.attr) + comment_tokens(s.comment) + ident("pub"@)
        + ident("struct"@) + ident(s.name) + generics(s.is_borrowed) + group(
        Delim::Brace,
        struct_members_tokens(s.member),
    )
}

/// The arm of a variant. A variant around a type that holds a placeholder
/// becomes the arm `Other`.
pub open spec fn kind_tokens(k: RustEnumMemberKindView) -> Seq<Token> {
    match k {
        RustEnumMemberKindView::Nullary(v) => ident(v) + punct(','),
        RustEnumMemberKindView::Unary(a) => if a.is_unknown() {
            ident("Other"@) + punct(',')
        } else {
            ident(a.ident()) + group(Delim::Parenthesis, type_tokens(a)) + punct(',')
        },
        RustEnumMemberKindView::UnaryNamed { variant_name, ty } => if ty.is_unknown() {
            ident("Other"@) + punct(',')
        } else {
            ident(variant_name) + group(Delim::Parenthesis, type_tokens(ty)) + punct(',')
        },
    }
}

pub open spec fn enum_member_tokens(m: RustEnumMemberView) -> Seq<Token> {
    variant_attrs_tokens(m.attr) + kind_tokens(m.kind)
}

pub open spec fn enum_members_tokens(ms: Seq<RustEnumMemberView>) -> Seq<Token>
    decreases ms.len(),
{
    if ms.len() == 0 {
        Seq::empty()
    } else {
        enum_members_tokens(ms.drop_last()) + enum_member_tokens(ms.last())
    }
}

pub open spec fn all_nullary(ms: Seq<RustEnumMemberView>) -> bool {
    forall|i: int| 0 <= i < ms.len() ==> (#[trigger] ms[i]).kind is Nullary
}

/// A sum type can be deserialized as it stands if it carries a serde
/// attribute or if none of its variants has a payload.
pub open spec fn enum_derives_deserialize(e: RustEnumView) -> bool {
    e.attr.len() > 0 || all_nullary(e.member)
}

pub open spec fn enum_tokens(e: RustEnumView) -> Seq<Token> {
    derive_tokens(enum_derives_deserialize(e)) + container_attrs_tokens(e.attr) + comment_tokens(
        e.comment,
    ) + ident("pub"@) + ident("enum"@) + ident(e.name) + generics(e.is_borrowed) + group(
        Delim::Brace,
        enum_members_tokens(e.member),
    )
}

pub open spec fn alias_tokens(a: RustAliasView) -> Seq<Token> {
    comment_tokens(a.comment) + ident("pub"@) + ident("type"@) + ident(a.name) + generics(
        a.is_borrowed,
    ) + punct('=') + type_tokens(a.ty) + punct(';')
}

/// The tokens of the declaration of a segment.
pub open spec fn segment_tokens(seg: RustSegmentView) -> Seq<Token> {
    match seg {
        RustSegmentView::Struct(s) => struct_tokens(s),
        RustSegmentView::Enum(e) => enum_tokens(e),
        RustSegmentView::Alias(a) => alias_tokens(a),
    }
}

/// The tokens of all segments, in order.
pub open spec fn segments_tokens(segs: Seq<RustSegmentView>) -> Seq<Token>
    decreases segs.len(),
{
    if segs.len() == 0 {
        Seq::empty()
    } else {
        segments_tokens(segs.drop_last()) + segment_tokens(segs.last())
    }
}

/// Every name in the type can be emitted as an identifier.
pub open spec fn type_emittable(ty: RustTypeView) -> bool
    decreases ty,
{
    match ty {
        RustTypeView::Custom(n) => is_ident(n.name),
        RustTypeView::Array(t) => type_emittable(*t),
        RustTypeView::Dict(k, v) => type_emittable(*k) && type_emittable(*v),
        _ => true,
    }
}

pub open spec fn member_emittable(m: RustStructMemberView) -> bool {
    m.ty.ty.is_unknown() || (is_ident(m.name) && type_emittable(m.ty.ty))
}

pub open spec fn kind_emittable(k: RustEnumMemberKindView) -> bool {
    match k {
        RustEnumMemberKindView::Nullary(v) => is_ident(v),
        RustEnumMemberKindView::Unary(a) => a.is_unknown() || type_emittable(a),
        RustEnumMemberKindView::UnaryNamed { variant_name, ty } => ty.is_unknown() || (is_ident(
            variant_name,
        ) && type_emittable(ty)),
    }
}

/// Every name that the declaration of the segment spells out can be
/// emitted as an identifier.
pub open spec fn segment_emittable(seg: RustSegmentView) -> bool {
    match seg {
        RustSegmentView::Struct(s) => is_ident(s.name) && forall|i: int|
            0 <= i < s.member.len() ==> member_emittable(#[trigger] s.member[i]),
        RustSegmentView::Enum(e) => is_ident(e.name) && forall|i: int|
            0 <= i < e.member.len() ==> kind_emittable((#[trigger] e.member[i]).kind),
        RustSegmentView::Alias(a) => is_ident(a.name) && type_emittable(a.ty),
    }
}

/// The identifier that stands for an emittable type is an identifier.
pub proof fn lemma_ident_of_emittable(ty: RustTypeView)
    requires
        type_emittable(ty),
    ensures
        is_ident(ty.ident()),
    decreases ty,
{
    reveal_strlit("String");
    reveal_strlit("Number");
    reveal_strlit("Boolean");
    reveal_strlit("Unit");
    reveal_strlit("Unknown");
    reveal_strlit("UnknownLiteral");
    reveal_strlit("UnknownIntersection");
    reveal_strlit("Map");
    match ty {
        RustTypeView::Array(t) => {
            lemma_ident_of_emittable(*t);
        },
        _ => {},
    }
}

fn put_ident(ts: &mut TokenStream, name: &str)
    requires
        is_ident(name@),
    ensures
        stream_tokens(*final(ts)) == stream_tokens(*old(ts)) + ident(name@),
{
    push_ident(ts, name);
    assert(stream_tokens(*ts) =~= stream_tokens(*old(ts)) + ident(name@));
}

fn put_punct(ts: &mut TokenStream, c: char)
    requires
        crate::tokens::is_punct(c),
    ensures
        stream_tokens(*final(ts)) == stream_tokens(*old(ts)) + punct(c),
{
    push_punct(ts, c, false);
    assert(stream_tokens(*ts) =~= stream_tokens(*old(ts)) + punct(c));
}

fn put_string(ts: &mut TokenStream, s: &str)
    ensures
        stream_tokens(*final(ts)) == stream_tokens(*old(ts)) + string(s@),
{
    push_string(ts, s);
    assert(stream_tokens(*ts) =~= stream_tokens(*old(ts)) + string(s@));
}

fn put_group(ts: &mut TokenStream, d: Delim, inner: TokenStream)
    ensures
        stream_tokens(*final(ts)) == stream_tokens(*old(ts)) + group(d, stream_tokens(inner)),
{
    push_group(ts, d, inner);
    assert(stream_tokens(*ts) =~= stream_tokens(*old(ts)) + group(d, stream_tokens(inner)));
}

fn put_lifetime(ts: &mut TokenStream)
    ensures
        stream_tokens(*final(ts)) == stream_tokens(*old(ts)) + lifetime_a(),
{
    proof {
        reveal_strlit("a");
    }
    push_punct(ts, '\'', true);
    push_ident(ts, "a");
    assert(stream_tokens(*ts) =~= stream_tokens(*old(ts)) + lifetime_a());
}

fn put_generics(ts: &mut TokenStream, is_borrowed: bool)
    ensures
        stream_tokens(*final(ts)) == stream_tokens(*old(ts)) + generics(is_borrowed),
{
    if is_borrowed {
        put_punct(ts, '<');
        put_lifetime(ts);
        put_punct(ts, '>');
    }
    assert(stream_tokens(*ts) =~= stream_tokens(*old(ts)) + generics(is_borrowed));
}

fn put_path_sep(ts: &mut TokenStream)
    ensures
        stream_tokens(*final(ts)) == stream_tokens(*old(ts)) + path_sep(),
{
    push_punct(ts, ':', true);
    push_punct(ts, ':', false);
    assert(stream_tokens(*ts) =~= stream_tokens(*old(ts)) + path_sep());
}

/// Appends `#[name(inner)]`.
fn put_attribute(ts: &mut TokenStream, name: &str, inner: TokenStream)
    requires
        is_ident(name@),
    ensures
        stream_tokens(*final(ts)) == stream_tokens(*old(ts)) + attribute(name@, stream_tokens(inner)),
{
    let mut bracket = TokenStream::new();
    put_ident(&mut bracket, name);
    put_group(&mut bracket, Delim::Parenthesis, inner);
    put_punct(ts, '#');
    assert(stream_tokens(bracket) =~= ident(name@) + group(Delim::Parenthesis, stream_tokens(inner)));
    put_group(ts, Delim::Bracket, bracket);
    assert(stream_tokens(*ts) =~= stream_tokens(*old(ts)) + attribute(name@, stream_tokens(inner)));
}

/// Appends `key = "value"`.
fn put_key_value(ts: &mut TokenStream, key: &str, value: &str)
    requires
        is_ident(key@),
    ensures
        stream_tokens(*final(ts)) == stream_tokens(*old(ts)) + key_value(key@, value@),
{
    put_ident(ts, key);
    put_punct(ts, '=');
    put_string(ts, value);
    assert(stream_tokens(*ts) =~= stream_tokens(*old(ts)) + key_value(key@, value@));
}

fn emit_type_name(n: &TypeName, ts: &mut TokenStream)
    requires
        is_ident(n@.name),
    ensures
        stream_tokens(*final(ts)) == stream_tokens(*old(ts)) + type_name_tokens(n@),
{
    put_ident(ts, n.name.as_str());
    put_generics(ts, n.is_borrowed);
    assert(stream_tokens(*ts) =~= stream_tokens(*old(ts)) + type_name_tokens(n@));
}

fn emit_type(ty: &RustType, ts: &mut TokenStream)
    requires
        type_emittable(ty@),
    ensures
        stream_tokens(*final(ts)) == stream_tokens(*old(ts)) + type_tokens(ty@),
    decreases ty,
{
    proof {
        reveal_strlit("std");
        reveal_strlit("borrow");
        reveal_strlit("Cow");
        reveal_strlit("str");
        reveal_strlit("String");
        reveal_strlit("usize");
        reveal_strlit("bool");
        reveal_strlit("Vec");
        reveal_strlit("Value");
        reveal_strlit("UnknownLiteral");
        reveal_strlit("UnknownIntersection");
        reveal_strlit("HashMap");
    }
    let ghost start = stream_tokens(*ts);
    match ty {
        RustType::String { is_borrowed } => {
            if *is_borrowed {
                put_path_sep(ts);
                put_ident(ts, "std");
                put_path_sep(ts);
                put_ident(ts, "borrow");
                put_path_sep(ts);
                put_ident(ts, "Cow");
                put_punct(ts, '<');
                put_lifetime(ts);
                put_punct(ts, ',');
                put_ident(ts, "str");
                put_punct(ts, '>');
            } else {
                put_ident(ts, "String");
            }
        },
        RustType::Number => {
            put_ident(ts, "usize");
        },
        RustType::Boolean => {
            put_ident(ts, "bool");
        },
        RustType::Custom(n) => {
            emit_type_name(n, ts);
        },
        RustType::Array(t) => {
            put_ident(ts, "Vec");
            put_punct(ts, '<');
            emit_type(t, ts);
            put_punct(ts, '>');
        },
        RustType::Unit => {
            put_group(ts, Delim::Parenthesis, TokenStream::new());
        },
        RustType::Unknown => {
            put_ident(ts, "Value");
        },
        RustType::UnknownLiteral => {
            put_ident(ts, "UnknownLiteral");
        },
        RustType::UnknownIntersection => {
            put_ident(ts, "UnknownIntersection");
        },
        RustType::Dict(k, v) => {
            put_ident(ts, "HashMap");
            put_punct(ts, '<');
            emit_type(k, ts);
            put_punct(ts, ',');
            emit_type(v, ts);
            put_punct(ts, '>');
        },
    }
    assert(stream_tokens(*ts) =~= start + type_tokens(ty@));
}

fn emit_member_type(m: &RustMemberType, ts: &mut TokenStream)
    requires
        type_emittable(m@.ty),
    ensures
        stream_tokens(*final(ts)) == stream_tokens(*old(ts)) + member_type_tokens(m@),
{
    proof {
        reveal_strlit("Option");
    }
    let ghost start = stream_tokens(*ts);
    if m.is_optional {
        put_ident(ts, "Option");
        put_punct(ts, '<');
        emit_type(&m.ty, ts);
        put_punct(ts, '>');
    } else {
        emit_type(&m.ty, ts);
    }
    assert(stream_tokens(*ts) =~= start + member_type_tokens(m@));
}

fn emit_comment(c: &Option<RustComment>, ts: &mut TokenStream)
    ensures
        stream_tokens(*final(ts)) == stream_tokens(*old(ts)) + comment_tokens(comment_view(*c)),
{
    proof {
        reveal_strlit("doc");
    }
    let ghost start = stream_tokens(*ts);
    match c {
        Some(text) => {
            let mut inner = TokenStream::new();
            put_ident(&mut inner, "doc");
            put_punct(&mut inner, '=');
            put_string(&mut inner, text.0.as_str());
            assert(stream_tokens(inner) =~= ident("doc"@) + punct('=') + string(text@));
            put_punct(ts, '#');
            put_group(ts, Delim::Bracket, inner);
        },
        None => {},
    }
    assert(stream_tokens(*ts) =~= start + comment_tokens(comment_view(*c)));
}

fn emit_container_attr(a: &RustStructAttr, ts: &mut TokenStream)
    ensures
        stream_tokens(*final(ts)) == stream_tokens(*old(ts)) + container_attr_tokens(a@),
{
    proof {
        reveal_strlit("serde");
        reveal_strlit("rename_all");
        reveal_strlit("tag");
        reveal_strlit("untagged");
    }
    let RustStructAttr::Serde(s) = a;
    let mut inner = TokenStream::new();
    match s {
        SerdeContainerAttr::RenameAll(r) => {
            let word = r.to_string();
            put_key_value(&mut inner, "rename_all", word.as_str());
        },
        SerdeContainerAttr::Tag(name) => {
            put_key_value(&mut inner, "tag", name.as_str());
        },
        SerdeContainerAttr::Untagged => {
            put_ident(&mut inner, "untagged");
        },
    }
    assert(stream_tokens(inner) =~= match a@ {
        SerdeContainerAttrView::RenameAll(r) => key_value("rename_all"@, r.serde_name()),
        SerdeContainerAttrView::Tag(name) => key_value("tag"@, name),
        SerdeContainerAttrView::Untagged => ident("untagged"@),
    });
    put_attribute(ts, "serde", inner);
}

fn emit_field_attr(a: &RustFieldAttr, ts: &mut TokenStream)
    ensures
        stream_tokens(*final(ts)) == stream_tokens(*old(ts)) + field_attr_tokens(a@),
{
    proof {
        reveal_strlit("serde");
        reveal_strlit("rename");
        reveal_strlit("borrow");
        reveal_strlit("flatten");
    }
    let RustFieldAttr::Serde(s) = a;
    let mut inner = TokenStream::new();
    match s {
        SerdeFieldAttr::Rename(s) => {
            put_key_value(&mut inner, "rename", s.as_str());
        },
        SerdeFieldAttr::Borrow => {
            put_key_value(&mut inner, "borrow", "'a");
        },
        SerdeFieldAttr::Flatten => {
            put_ident(&mut inner, "flatten");
        },
    }
    assert(stream_tokens(inner) =~= match a@ {
        SerdeFieldAttrView::Rename(s) => key_value("rename"@, s),
        SerdeFieldAttrView::Borrow => key_value("borrow"@, "'a"@),
        SerdeFieldAttrView::Flatten => ident("flatten"@),
    });
    put_attribute(ts, "serde", inner);
}

fn emit_variant_attr(a: &RustVariantAttr, ts: &mut TokenStream)
    ensures
        stream_tokens(*final(ts)) == stream_tokens(*old(ts)) + variant_attr_tokens(a@),
{
    proof {
        reveal_strlit("serde");
        reveal_strlit("rename");
        reveal_strlit("borrow");
    }
    let RustVariantAttr::Serde(s) = a;
    let mut inner = TokenStream::new();
    match s {
        SerdeVariantAttr::Rename(s) => {
            put_key_value(&mut inner, "rename", s.as_str());
        },
        SerdeVariantAttr::Borrow => {
            put_key_value(&mut inner, "borrow", "'a");
        },
    }
    assert(stream_tokens(inner) =~= match a@ {
        SerdeVariantAttrView::Rename(s) => key_value("rename"@, s),
        SerdeVariantAttrView::Borrow => key_value("borrow"@, "'a"@),
    });
    put_attribute(ts, "serde", inner);
}

fn emit_container_attrs(attrs: &RustContainerAttrs, ts: &mut TokenStream)
    ensures
        stream_tokens(*final(ts)) == stream_tokens(*old(ts)) + container_attrs_tokens(attrs@),
{
    let ghost start = stream_tokens(*ts);
    let ghost all = attrs@;
    let mut i: usize = 0;
    assert(start + container_attrs_tokens(all.take(0)) =~= start);
    while i < attrs.0.len()
        invariant
            i <= attrs.0.len(),
            all == attrs@,
            stream_tokens(*ts) == start + container_attrs_tokens(all.take(i as int)),
        decreases attrs.0.len() - i,
    {
        proof {
            assert(all.take(i + 1).drop_last() =~= all.take(i as int));
            assert(all.take(i + 1).last() == attrs.0@[i as int]@);
        }
        emit_container_attr(&attrs.0[i], ts);
        assert(stream_tokens(*ts) =~= start + container_attrs_tokens(all.take(i + 1)));
        i += 1;
    }
    assert(all.take(attrs.0.len() as int) =~= all);
}

fn emit_field_attrs(attrs: &RustFieldAttrs, ts: &mut TokenStream)
    ensures
        stream_tokens(*final(ts)) == stream_tokens(*old(ts)) + field_attrs_tokens(attrs@),
{
    let ghost start = stream_tokens(*ts);
    let ghost all = attrs@;
    let mut i: usize = 0;
    assert(start + field_attrs_tokens(all.take(0)) =~= start);
    while i < attrs.0.len()
        invariant
            i <= attrs.0.len(),
            all == attrs@,
            stream_tokens(*ts) == start + field_attrs_tokens(all.take(i as int)),
        decreases attrs.0.len() - i,
    {
        proof {
            assert(all.take(i + 1).drop_last() =~= all.take(i as int));
            assert(all.take(i + 1).last() == attrs.0@[i as int]@);
        }
        emit_field_attr(&attrs.0[i], ts);
        assert(stream_tokens(*ts) =~= start + field_attrs_tokens(all.take(i + 1)));
        i += 1;
    }
    assert(all.take(attrs.0.len() as int) =~= all);
}

fn emit_variant_attrs(attrs: &RustVariantAttrs, ts: &mut TokenStream)
    ensures
        stream_tokens(*final(ts)) == stream_tokens(*old(ts)) + variant_attrs_tokens(attrs@),
{
    let ghost start = stream_tokens(*ts);
    let ghost all = attrs@;
    let mut i: usize = 0;
    assert(start + variant_attrs_tokens(all.take(0)) =~= start);
    while i < attrs.0.len()
        invariant
            i <= attrs.0.len(),
            all == attrs@,
            stream_tokens(*ts) == start + variant_attrs_tokens(all.take(i as int)),
        decreases attrs.0.len() - i,
    {
        proof {
            assert(all.take(i + 1).drop_last() =~= all.take(i as int));
            assert(all.take(i + 1).last() == attrs.0@[i as int]@);
        }
        emit_variant_attr(&attrs.0[i], ts);
        assert(stream_tokens(*ts) =~= start + variant_attrs_tokens(all.take(i + 1)));
        i += 1;
    }
    assert(all.take(attrs.0.len() as int) =~= all);
}

fn emit_struct_member(m: &RustStructMember, ts: &mut TokenStream)
    requires
        member_emittable(m@),
    ensures
        stream_tokens(*final(ts)) == stream_tokens(*old(ts)) + struct_member_tokens(m@),
{
    proof {
        reveal_strlit("pub");
    }
    let ghost start = stream_tokens(*ts);
    if !m.ty.is_unknown() {
        emit_comment(&m.comment, ts);
        emit_field_attrs(&m.attr, ts);
        put_ident(ts, "pub");
        put_ident(ts, m.name.as_str());
        put_punct(ts, ':');
        emit_member_type(&m.ty, ts);
        put_punct(ts, ',');
    }
    assert(stream_tokens(*ts) =~= start + struct_member_tokens(m@));
}

fn emit_derive(ts: &mut TokenStream, deserialize: bool)
    ensures
        stream_tokens(*final(ts)) == stream_tokens(*old(ts)) + derive_tokens(deserialize),
{
    proof {
        reveal_strlit("derive");
        reveal_strlit("Debug");
        reveal_strlit("Deserialize");
    }
    let mut inner = TokenStream::new();
    put_ident(&mut inner, "Debug");
    if deserialize {
        put_punct(&mut inner, ',');
        put_ident(&mut inner, "Deserialize");
    }
    assert(stream_tokens(inner) =~= if deserialize {
        ident("Debug"@) + punct(',') + ident("Deserialize"@)
    } else {
        ident("Debug"@)
    });
    put_attribute(ts, "derive", inner);
}

fn emit_struct(s: &RustStruct, ts: &mut TokenStream)
    requires
        segment_emittable(RustSegmentView::Struct(s@)),
    ensures
        stream_tokens(*final(ts)) == stream_tokens(*old(ts)) + struct_tokens(s@),
{
    proof {
        reveal_strlit("pub");
        reveal_strlit("struct");
    }
    let ghost start = stream_tokens(*ts);
    emit_derive(ts, true);
    emit_container_attrs(&s.attr, ts);
    emit_comment(&s.comment, ts);
    put_ident(ts, "pub");
    put_ident(ts, "struct");
    put_ident(ts, s.name.as_str());
    put_generics(ts, s.is_borrowed);
    let mut body = TokenStream::new();
    let ghost all = s@.member;
    let mut i: usize = 0;
    assert(struct_members_tokens(all.take(0)) =~= Seq::<Token>::empty());
    while i < s.member.len()
        invariant
            i <= s.member.len(),
            all == s@.member,
            forall|j: int| 0 <= j < all.len() ==> member_emittable(#[trigger] all[j]),
            stream_tokens(body) == struct_members_tokens(all.take(i as int)),
        decreases s.member.len() - i,
    {
        proof {
            assert(all.take(i + 1).drop_last() =~= all.take(i as int));
            assert(all.take(i + 1).last() == s.member@[i as int]@);
            assert(member_emittable(all[i as int]));
        }
        emit_struct_member(&s.member[i], &mut body);
        i += 1;
    }
    assert(all.take(s.member.len() as int) =~= all);
    put_group(ts, Delim::Brace, body);
    assert(stream_tokens(*ts) =~= start + struct_tokens(s@));
}

fn emit_kind(k: &RustEnumMemberKind, ts: &mut TokenStream)
    requires
        kind_emittable(k@),
    ensures
        stream_tokens(*final(ts)) == stream_tokens(*old(ts)) + kind_tokens(k@),
{
    proof {
        reveal_strlit("Other");
    }
    let ghost start = stream_tokens(*ts);
    match k {
        RustEnumMemberKind::Nullary(v) => {
            put_ident(ts, v.as_str());
            put_punct(ts, ',');
        },
        RustEnumMemberKind::Unary(a) => {
            if a.is_unknown() {
                put_ident(ts, "Other");
                put_punct(ts, ',');
            } else {
                proof {
                    lemma_ident_of_emittable(a@);
                }
                put_ident(ts, a.to_ident());
                let mut inner = TokenStream::new();
                emit_type(a, &mut inner);
                assert(stream_tokens(inner) =~= type_tokens(a@));
                put_group(ts, Delim::Parenthesis, inner);
                put_punct(ts, ',');
            }
        },
        RustEnumMemberKind::UnaryNamed { variant_name, ty } => {
            if ty.is_unknown() {
                put_ident(ts, "Other");
                put_punct(ts, ',');
            } else {
                put_ident(ts, variant_name.as_str());
                let mut inner = TokenStream::new();
                emit_type(ty, &mut inner);
                assert(stream_tokens(inner) =~= type_tokens(ty@));
                put_group(ts, Delim::Parenthesis, inner);
                put_punct(ts, ',');
            }
        },
    }
    assert(stream_tokens(*ts) =~= start + kind_tokens(k@));
}

fn emit_enum_member(m: &RustEnumMember, ts: &mut TokenStream)
    requires
        kind_emittable(m@.kind),
    ensures
        stream_tokens(*final(ts)) == stream_tokens(*old(ts)) + enum_member_tokens(m@),
{
    let ghost start = stream_tokens(*ts);
    emit_variant_attrs(&m.attr, ts);
    emit_kind(&m.kind, ts);
    assert(stream_tokens(*ts) =~= start + enum_member_tokens(m@));
}

fn members_all_nullary(ms: &Vec<RustEnumMember>) -> (r: bool)
    ensures
        r == all_nullary(ms@.map_values(|m: RustEnumMember| m@)),
{
    let ghost views = ms@.map_values(|m: RustEnumMember| m@);
    let mut i: usize = 0;
    while i < ms.len()
        invariant
            i <= ms.len(),
            views == ms@.map_values(|m: RustEnumMember| m@),
            forall|j: int| 0 <= j < i ==> (#[trigger] views[j]).kind is Nullary,
        decreases ms.len() - i,
    {
        if !ms[i].kind.is_nullary() {
            assert(!(views[i as int].kind is Nullary));
            return false;
        }
        i += 1;
    }
    true
}

fn emit_enum(e: &RustEnum, ts: &mut TokenStream)
    requires
        segment_emittable(RustSegmentView::Enum(e@)),
    ensures
        stream_tokens(*final(ts)) == stream_tokens(*old(ts)) + enum_tokens(e@),
{
    proof {
        reveal_strlit("pub");
        reveal_strlit("enum");
    }
    let ghost start = stream_tokens(*ts);
    let deserialize = e.attr.as_inner().len() > 0 || members_all_nullary(&e.member);
    emit_derive(ts, deserialize);
    emit_container_attrs(&e.attr, ts);
    emit_comment(&e.comment, ts);
    put_ident(ts, "pub");
    put_ident(ts, "enum");
    put_ident(ts, e.name.as_str());
    put_generics(ts, e.is_borrowed);
    let mut body = TokenStream::new();
    let ghost all = e@.member;
    let mut i: usize = 0;
    assert(enum_members_tokens(all.take(0)) =~= Seq::<Token>::empty());
    while i < e.member.len()
        invariant
            i <= e.member.len(),
            all == e@.member,
            forall|j: int| 0 <= j < all.len() ==> kind_emittable((#[trigger] all[j]).kind),
            stream_tokens(body) == enum_members_tokens(all.take(i as int)),
        decreases e.member.len() - i,
    {
        proof {
            assert(all.take(i + 1).drop_last() =~= all.take(i as int));
            assert(all.take(i + 1).last() == e.member@[i as int]@);
            assert(kind_emittable(all[i as int].kind));
        }
        emit_enum_member(&e.member[i], &mut body);
        i += 1;
    }
    assert(all.take(e.member.len() as int) =~= all);
    put_group(ts, Delim::Brace, body);
    assert(stream_tokens(*ts) =~= start + enum_tokens(e@));
}

fn emit_alias(a: &RustAlias, ts: &mut TokenStream)
    requires
        segment_emittable(RustSegmentView::Alias(a@)),
    ensures
        stream_tokens(*final(ts)) == stream_tokens(*old(ts)) + alias_tokens(a@),
{
    proof {
        reveal_strlit("pub");
        reveal_strlit("type");
    }
    let ghost start = stream_tokens(*ts);
    emit_comment(&a.comment, ts);
    put_ident(ts, "pub");
    put_ident(ts, "type");
    put_ident(ts, a.name.as_str());
    put_generics(ts, a.is_borrowed);
    put_punct(ts, '=');
    emit_type(&a.ty, ts);
    put_punct(ts, ';');
    assert(stream_tokens(*ts) =~= start + alias_tokens(a@));
}

/// Appends the declaration of a segment to a stream.
pub fn emit_segment(seg: &RustSegment, ts: &mut TokenStream)
    requires
        segment_emittable(seg@),
    ensures
        stream_tokens(*final(ts)) == stream_tokens(*old(ts)) + segment_tokens(seg@),
{
    match seg {
        RustSegment::Struct(s) => emit_struct(s, ts),
        RustSegment::Enum(e) => emit_enum(e, ts),
        RustSegment::Alias(a) => emit_alias(a, ts),
    }
}

impl RustSegment {
    /// The declaration of the segment as a token stream.
    pub fn into_token_stream(self) -> (ts: TokenStream)
        requires
            segment_emittable(self@),
        ensures
            stream_tokens(ts) == segment_tokens(self@),
    {
        let mut ts = TokenStream::new();
        emit_segment(&self, &mut ts);
        assert(Seq::<Token>::empty() + segment_tokens(self@) =~= segment_tokens(self@));
        ts
    }
}

fn type_is_emittable(ty: &RustType) -> (r: bool)
    ensures
        r == type_emittable(ty@),
    decreases ty,
{
    match ty {
        RustType::Custom(n) => is_ident_str(n.name.as_str()),
        RustType::Array(t) => type_is_emittable(t),
        RustType::Dict(k, v) => type_is_emittable(k) && type_is_emittable(v),
        _ => true,
    }
}

fn kind_is_emittable(k: &RustEnumMemberKind) -> (r: bool)
    ensures
        r == kind_emittable(k@),
{
    match k {
        RustEnumMemberKind::Nullary(v) => is_ident_str(v.as_str()),
        RustEnumMemberKind::Unary(a) => a.is_unknown() || type_is_emittable(a),
        RustEnumMemberKind::UnaryNamed { variant_name, ty } => ty.is_unknown() || (is_ident_str(
            variant_name.as_str(),
        ) && type_is_emittable(ty)),
    }
}

/// Whether every name that the declaration of the segment spells out can
/// be emitted as an identifier.
pub fn is_emittable(seg: &RustSegment) -> (r: bool)
    ensures
        r == segment_emittable(seg@),
{
    match seg {
        RustSegment::Struct(s) => {
            if !is_ident_str(s.name.as_str()) {
                return false;
            }
            let mut i: usize = 0;
            while i < s.member.len()
                invariant
                    i <= s.member.len(),
                    seg@ == RustSegmentView::Struct(s@),
                    is_ident(s@.name),
                    forall|j: int| 0 <= j < i ==> member_emittable(#[trigger] s@.member[j]),
                decreases s.member.len() - i,
            {
                let m = &s.member[i];
                let ok = m.ty.is_unknown() || (is_ident_str(m.name.as_str()) && type_is_emittable(
                    &m.ty.ty,
                ));
                assert(ok == member_emittable(s@.member[i as int]));
                if !ok {
                    return false;
                }
                i += 1;
            }
            true
        },
        RustSegment::Enum(e) => {
            if !is_ident_str(e.name.as_str()) {
                return false;
            }
            let mut i: usize = 0;
            while i < e.member.len()
                invariant
                    i <= e.member.len(),
                    seg@ == RustSegmentView::Enum(e@),
                    is_ident(e@.name),
                    forall|j: int| 0 <= j < i ==> kind_emittable((#[trigger] e@.member[j]).kind),
                decreases e.member.len() - i,
            {
                let ok = kind_is_emittable(&e.member[i].kind);
                assert(ok == kind_emittable(e@.member[i as int].kind));
                if !ok {
                    return false;
                }
                i += 1;
            }
            true
        },
        RustSegment::Alias(a) => is_ident_str(a.name.as_str()) && type_is_emittable(&a.ty),
    }
}

} // verus!
