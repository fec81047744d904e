//! The declarations that the compiler reads: interfaces and type aliases of
//! a TypeScript-like declaration language, as plain values.
//!
//! A parser for the language produces these values; positions in the source
//! text are not kept, so equality is structural.

use vstd::prelude::*;

verus! {

/// A keyword type.
#[derive(Debug, Clone, Copy, PartialEq, Eq, Structural)]
pub enum TsKeywordKind {
    String,
    Number,
    Boolean,
    Null,
    Unknown,
    /// Any other keyword (`any`, `never`, `object`, ...).
    Other,
}

/// A type expression.
#[derive(Debug, PartialEq, Eq)]
pub enum TsType {
    Keyword(TsKeywordKind),
    Union(Vec<TsType>),
    Intersection(Vec<TsType>),
    /// A string literal type, by its value.
    LitStr(String),
    /// A literal type that is no string.
    LitOther,
    /// A reference to a named type.
    TypeRef(String),
    Array(Box<TsType>),
    /// An object type literal.
    TypeLit(Vec<TsTypeElement>),
    Tuple(Vec<TsType>),
    Parenthesized(Box<TsType>),
    /// A type operator such as `keyof`.
    TypeOperator,
    /// Any other form of type.
    Other,
}

/// A member of an interface or of an object type literal.
#[derive(Debug, PartialEq, Eq)]
pub enum TsTypeElement {
    Property(TsPropertySignature),
    Index(TsIndexSignature),
    /// A method, a call signature, or another member that has no
    /// counterpart in a record.
    Other,
}

/// `key?: type`, with the text of the comment that leads it.
#[derive(Debug, PartialEq, Eq)]
pub struct TsPropertySignature {
    pub key: String,
    pub optional: bool,
    pub type_ann: TsType,
    pub comment: Option<String>,
}

/// `[param_name: param_type]: type`
#[derive(Debug, PartialEq, Eq)]
pub struct TsIndexSignature {
    pub param_name: String,
    pub param_type: TsType,
    pub type_ann: TsType,
}

/// `interface name { body }`, with the text of the comment that leads it.
#[derive(Debug, PartialEq, Eq)]
pub struct TsInterfaceDecl {
    pub name: String,
    pub body: Vec<TsTypeElement>,
    pub comment: Option<String>,
}

/// `type name = type`, with the text of the comment that leads it.
#[derive(Debug, PartialEq, Eq)]
pub struct TsTypeAliasDecl {
    pub name: String,
    pub type_ann: TsType,
    pub comment: Option<String>,
}

/// An exported declaration.
#[derive(Debug, PartialEq, Eq)]
pub enum Decl {
    Interface(TsInterfaceDecl),
    TypeAlias(TsTypeAliasDecl),
    /// A declaration of another kind.
    Other,
}

/// The view of an optional string.
pub open spec fn opt_view(s: Option<String>) -> Option<Seq<char>> {
    match s {
        Some(s) => Some(s@),
        None => None,
    }
}

/// Two types are of the same structure, with equal names and literals.
pub open spec fn same_type(a: TsType, b: TsType) -> bool
    decreases a,
{
    match (a, b) {
        (TsType::Keyword(x), TsType::Keyword(y)) => x == y,
        (TsType::Union(x), TsType::Union(y)) => x.len() == y.len() && forall|i: int|
            0 <= i < x.len() ==> same_type(#[trigger] x[i], y[i]),
        (TsType::Intersection(x), TsType::Intersection(y)) => x.len() == y.len() && forall|i: int|
            0 <= i < x.len() ==> same_type(#[trigger] x[i], y[i]),
        (TsType::LitStr(x), TsType::LitStr(y)) => x@ == y@,
        (TsType::LitOther, TsType::LitOther) => true,
        (TsType::TypeRef(x), TsType::TypeRef(y)) => x@ == y@,
        (TsType::Array(x), TsType::Array(y)) => same_type(*x, *y),
        (TsType::TypeLit(x), TsType::TypeLit(y)) => x.len() == y.len() && forall|i: int|
            0 <= i < x.len() ==> same_element(#[trigger] x[i], y[i]),
        (TsType::Tuple(x), TsType::Tuple(y)) => x.len() == y.len() && forall|i: int|
            0 <= i < x.len() ==> same_type(#[trigger] x[i], y[i]),
        (TsType::Parenthesized(x), TsType::Parenthesized(y)) => same_type(*x, *y),
        (TsType::TypeOperator, TsType::TypeOperator) => true,
        (TsType::Other, TsType::Other) => true,
        _ => false,
    }
}

/// Two members are of the same structure, with equal names and literals.
/// Comments do not count.
pub open spec fn same_element(a: TsTypeElement, b: TsTypeElement) -> bool
    decreases a,
{
    match (a, b) {
        (TsTypeElement::Property(p), TsTypeElement::Property(q)) => p.key@ == q.key@ && p.optional
            == q.optional && same_type(p.type_ann, q.type_ann),
        (TsTypeElement::Index(p), TsTypeElement::Index(q)) => p.param_name@ == q.param_name@
            && same_type(p.param_type, q.param_type) && same_type(p.type_ann, q.type_ann),
        (TsTypeElement::Other, TsTypeElement::Other) => true,
        _ => false,
    }
}

fn types_eq(x: &Vec<TsType>, y: &Vec<TsType>) -> (r: bool)
    ensures
        r == (x.len() == y.len() && forall|i: int| 0 <= i < x.len() ==> same_type(#[trigger] x[i], y[i])),
    decreases x,
{
    if x.len() != y.len() {
        return false;
    }
    let mut i: usize = 0;
    while i < x.len()
        invariant
            i <= x.len(),
            x.len() == y.len(),
            forall|j: int| 0 <= j < i ==> same_type(#[trigger] x[j], y[j]),
        decreases x.len() - i,
    {
        if !type_eq(&x[i], &y[i]) {
            return false;
        }
        i += 1;
    }
    true
}

fn elements_eq(x: &Vec<TsTypeElement>, y: &Vec<TsTypeElement>) -> (r: bool)
    ensures
        r == (x.len() == y.len() && forall|i: int|
            0 <= i < x.len() ==> same_element(#[trigger] x[i], y[i])),
    decreases x,
{
    if x.len() != y.len() {
        return false;
    }
    let mut i: usize = 0;
    while i < x.len()
        invariant
            i <= x.len(),
            x.len() == y.len(),
            forall|j: int| 0 <= j < i ==> same_element(#[trigger] x[j], y[j]),
        decreases x.len() - i,
    {
        if !element_eq(&x[i], &y[i]) {
            return false;
        }
        i += 1;
    }
    true
}

/// Whether two types are of the same structure.
pub fn type_eq(a: &TsType, b: &TsType) -> (r: bool)
    ensures
        r == same_type(*a, *b),
    decreases a,
{
    match (a, b) {
        (TsType::Keyword(x), TsType::Keyword(y)) => *x == *y,
        (TsType::Union(x), TsType::Union(y)) => types_eq(x, y),
        (TsType::Intersection(x), TsType::Intersection(y)) => types_eq(x, y),
        (TsType::LitStr(x), TsType::LitStr(y)) => *x == *y,
        (TsType::LitOther, TsType::LitOther) => true,
        (TsType::TypeRef(x), TsType::TypeRef(y)) => *x == *y,
        (TsType::Array(x), TsType::Array(y)) => type_eq(x, y),
        (TsType::TypeLit(x), TsType::TypeLit(y)) => elements_eq(x, y),
        (TsType::Tuple(x), TsType::Tuple(y)) => types_eq(x, y),
        (TsType::Parenthesized(x), TsType::Parenthesized(y)) => type_eq(x, y),
        (TsType::TypeOperator, TsType::TypeOperator) => true,
        (TsType::Other, TsType::Other) => true,
        _ => false,
    }
}

/// Whether two members are of the same structure.
pub fn element_eq(a: &TsTypeElement, b: &TsTypeElement) -> (r: bool)
    ensures
        r == same_element(*a, *b),
    decreases a,
{
    match (a, b) {
        (TsTypeElement::Property(p), TsTypeElement::Property(q)) => p.key == q.key && p.optional
            == q.optional && type_eq(&p.type_ann, &q.type_ann),
        (TsTypeElement::Index(p), TsTypeElement::Index(q)) => p.param_name == q.param_name
            && type_eq(&p.param_type, &q.param_type) && type_eq(&p.type_ann, &q.type_ann),
        (TsTypeElement::Other, TsTypeElement::Other) => true,
        _ => false,
    }
}

/// The nesting depth of a type: how many levels of types and members lie
/// below it.
pub open spec fn type_depth(t: TsType) -> nat
    decreases t,
{
    match t {
        TsType::Union(v) => 1 + types_depth(v@),
        TsType::Intersection(v) => 1 + types_depth(v@),
        TsType::Tuple(v) => 1 + types_depth(v@),
        TsType::Array(b) => 1 + type_depth(*b),
        TsType::Parenthesized(b) => 1 + type_depth(*b),
        TsType::TypeLit(m) => 1 + elements_depth(m@),
        _ => 0,
    }
}

/// The greatest depth among the types.
pub open spec fn types_depth(v: Seq<TsType>) -> nat
    decreases v,
{
    if v.len() == 0 {
        0
    } else {
        let rest = types_depth(v.drop_last());
        let last = type_depth(v.last());
        if rest >= last {
            rest
        } else {
            last
        }
    }
}

pub open spec fn element_depth(e: TsTypeElement) -> nat
    decreases e,
{
    match e {
        TsTypeElement::Property(p) => 1 + type_depth(p.type_ann),
        TsTypeElement::Index(i) => {
            let a = type_depth(i.param_type);
            let b = type_depth(i.type_ann);
            1 + if a >= b {
                a
            } else {
                b
            }
        },
        TsTypeElement::Other => 0,
    }
}

/// The greatest depth among the members.
pub open spec fn elements_depth(v: Seq<TsTypeElement>) -> nat
    decreases v,
{
    if v.len() == 0 {
        0
    } else {
        let rest = elements_depth(v.drop_last());
        let last = element_depth(v.last());
        if rest >= last {
            rest
        } else {
            last
        }
    }
}

pub proof fn lemma_types_depth(v: Seq<TsType>, i: int)
    requires
        0 <= i < v.len(),
    ensures
        type_depth(v[i]) <= types_depth(v),
    decreases v.len(),
{
    if i < v.len() - 1 {
        lemma_types_depth(v.drop_last(), i);
    }
}

pub proof fn lemma_elements_depth(v: Seq<TsTypeElement>, i: int)
    requires
        0 <= i < v.len(),
    ensures
        element_depth(v[i]) <= elements_depth(v),
    decreases v.len(),
{
    if i < v.len() - 1 {
        lemma_elements_depth(v.drop_last(), i);
    }
}

/// A list all of whose members are no deeper than `d` is no deeper than
/// `d`.
pub proof fn lemma_elements_depth_bound(v: Seq<TsTypeElement>, d: nat)
    requires
        forall|i: int| 0 <= i < v.len() ==> element_depth(#[trigger] v[i]) <= d,
    ensures
        elements_depth(v) <= d,
    decreases v.len(),
{
    if v.len() > 0 {
        assert(element_depth(v[v.len() - 1]) <= d);
        assert forall|i: int| 0 <= i < v.drop_last().len() implies element_depth(
            #[trigger] v.drop_last()[i],
        ) <= d by {
            assert(v.drop_last()[i] == v[i]);
        }
        lemma_elements_depth_bound(v.drop_last(), d);
    }
}

} // verus!
