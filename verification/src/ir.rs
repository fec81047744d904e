//! The intermediate representation: record types, sum types and aliases,
//! with the serde attributes that decorate them.
//!
//! Every type has a mathematical view (`@`) in which strings are sequences
//! of characters and vectors are sequences; the contracts of the passes are
//! stated over these views.

pub mod deps;

pub use deps::type_deps;

use vstd::prelude::*;
use crate::strmap::StringMap;
use crate::text::{pascal_of, snake_of, to_pascal, to_snake};

verus! {

/// A reference to a named segment, with its reference mode.
#[derive(Debug, PartialEq, Eq)]
pub struct TypeName {
    pub name: String,
    pub is_borrowed: bool,
}

pub struct TypeNameView {
    pub name: Seq<char>,
    pub is_borrowed: bool,
}

impl View for TypeName {
    type V = TypeNameView;

    open spec fn view(&self) -> TypeNameView {
        TypeNameView { name: self.name@, is_borrowed: self.is_borrowed }
    }
}

impl Clone for TypeName {
    fn clone(&self) -> (r: Self)
        ensures
            r == *self,
    {
        TypeName { name: self.name.clone(), is_borrowed: self.is_borrowed }
    }
}

/// A type expression.
#[derive(Debug, PartialEq, Eq)]
pub enum RustType {
    String { is_borrowed: bool },
    Number,
    Boolean,
    Custom(TypeName),
    Array(Box<RustType>),
    Dict(Box<RustType>, Box<RustType>),
    /// `()`
    Unit,
    Unknown,
    UnknownLiteral,
    UnknownIntersection,
}

pub enum RustTypeView {
    String { is_borrowed: bool },
    Number,
    Boolean,
    Custom(TypeNameView),
    Array(Box<RustTypeView>),
    Dict(Box<RustTypeView>, Box<RustTypeView>),
    Unit,
    Unknown,
    UnknownLiteral,
    UnknownIntersection,
}

impl View for RustType {
    type V = RustTypeView;

    open spec fn view(&self) -> RustTypeView
        decreases self,
    {
        match self {
            RustType::String { is_borrowed } => RustTypeView::String { is_borrowed: *is_borrowed },
            RustType::Number => RustTypeView::Number,
            RustType::Boolean => RustTypeView::Boolean,
            RustType::Custom(t) => RustTypeView::Custom(t@),
            RustType::Array(t) => RustTypeView::Array(Box::new((**t)@)),
            RustType::Dict(k, v) => RustTypeView::Dict(Box::new((**k)@), Box::new((**v)@)),
            RustType::Unit => RustTypeView::Unit,
            RustType::Unknown => RustTypeView::Unknown,
            RustType::UnknownLiteral => RustTypeView::UnknownLiteral,
            RustType::UnknownIntersection => RustTypeView::UnknownIntersection,
        }
    }
}

impl Clone for RustType {
    fn clone(&self) -> (r: Self)
        ensures
            r == *self,
        decreases self,
    {
        match self {
            RustType::String { is_borrowed } => RustType::String { is_borrowed: *is_borrowed },
            RustType::Number => RustType::Number,
            RustType::Boolean => RustType::Boolean,
            RustType::Custom(t) => RustType::Custom(t.clone()),
            RustType::Array(t) => RustType::Array(Box::new((&**t).clone())),
            RustType::Dict(k, v) => RustType::Dict(
                Box::new((&**k).clone()),
                Box::new((&**v).clone()),
            ),
            RustType::Unit => RustType::Unit,
            RustType::Unknown => RustType::Unknown,
            RustType::UnknownLiteral => RustType::UnknownLiteral,
            RustType::UnknownIntersection => RustType::UnknownIntersection,
        }
    }
}

impl Default for RustType {
    fn default() -> (r: Self)
        ensures
            r == RustType::Unit,
    {
        RustType::Unit
    }
}

/// The rule by which serde renames every member of a container.
#[derive(Debug, Clone, Copy, PartialEq, Eq, Structural)]
pub enum RenameRule {
    PascalCase,
    SnakeCase,
    ScreamingSnakeCase,
}

/// A doc comment attached to a segment or a member.
#[derive(Debug, PartialEq, Eq)]
pub struct RustComment(pub String);

impl View for RustComment {
    type V = Seq<char>;

    open spec fn view(&self) -> Seq<char> {
        self.0@
    }
}

impl Clone for RustComment {
    fn clone(&self) -> (r: Self)
        ensures
            r == *self,
    {
        RustComment(self.0.clone())
    }
}

/// The view of an optional comment.
pub open spec fn comment_view(c: Option<RustComment>) -> Option<Seq<char>> {
    match c {
        Some(c) => Some(c@),
        None => None,
    }
}

#[derive(Debug, PartialEq, Eq)]
pub enum SerdeContainerAttr {
    RenameAll(RenameRule),
    Tag(String),
    Untagged,
}

pub enum SerdeContainerAttrView {
    RenameAll(RenameRule),
    Tag(Seq<char>),
    Untagged,
}

impl View for SerdeContainerAttr {
    type V = SerdeContainerAttrView;

    open spec fn view(&self) -> SerdeContainerAttrView {
        match self {
            SerdeContainerAttr::RenameAll(r) => SerdeContainerAttrView::RenameAll(*r),
            SerdeContainerAttr::Tag(t) => SerdeContainerAttrView::Tag(t@),
            SerdeContainerAttr::Untagged => SerdeContainerAttrView::Untagged,
        }
    }
}

/// An attribute of a record or sum type. Its view is that of the serde
/// attribute it carries.
#[derive(Debug, PartialEq, Eq)]
pub enum RustStructAttr {
    Serde(SerdeContainerAttr),
}

impl View for RustStructAttr {
    type V = SerdeContainerAttrView;

    open spec fn view(&self) -> SerdeContainerAttrView {
        match self {
            RustStructAttr::Serde(s) => s@,
        }
    }
}

#[derive(Debug, PartialEq, Eq)]
pub enum SerdeFieldAttr {
    Rename(String),
    Flatten,
    Borrow,
}

pub enum SerdeFieldAttrView {
    Rename(Seq<char>),
    Flatten,
    Borrow,
}

impl View for SerdeFieldAttr {
    type V = SerdeFieldAttrView;

    open spec fn view(&self) -> SerdeFieldAttrView {
        match self {
            SerdeFieldAttr::Rename(s) => SerdeFieldAttrView::Rename(s@),
            SerdeFieldAttr::Flatten => SerdeFieldAttrView::Flatten,
            SerdeFieldAttr::Borrow => SerdeFieldAttrView::Borrow,
        }
    }
}

/// An attribute of a record field. Its view is that of the serde attribute
/// it carries.
#[derive(Debug, PartialEq, Eq)]
pub enum RustFieldAttr {
    Serde(SerdeFieldAttr),
}

impl View for RustFieldAttr {
    type V = SerdeFieldAttrView;

    open spec fn view(&self) -> SerdeFieldAttrView {
        match self {
            RustFieldAttr::Serde(s) => s@,
        }
    }
}

#[derive(Debug, PartialEq, Eq)]
pub enum SerdeVariantAttr {
    Rename(String),
    Borrow,
}

pub enum SerdeVariantAttrView {
    Rename(Seq<char>),
    Borrow,
}

impl View for SerdeVariantAttr {
    type V = SerdeVariantAttrView;

    open spec fn view(&self) -> SerdeVariantAttrView {
        match self {
            SerdeVariantAttr::Rename(s) => SerdeVariantAttrView::Rename(s@),
            SerdeVariantAttr::Borrow => SerdeVariantAttrView::Borrow,
        }
    }
}

/// An attribute of a sum-type variant. Its view is that of the serde
/// attribute it carries.
#[derive(Debug, PartialEq, Eq)]
pub enum RustVariantAttr {
    Serde(SerdeVariantAttr),
}

impl View for RustVariantAttr {
    type V = SerdeVariantAttrView;

    open spec fn view(&self) -> SerdeVariantAttrView {
        match self {
            RustVariantAttr::Serde(s) => s@,
        }
    }
}

/// An ordered list of attributes.
#[derive(Debug, PartialEq, Eq)]
pub struct Attrs<Field>(pub Vec<Field>);

pub type RustContainerAttrs = Attrs<RustStructAttr>;

pub type RustFieldAttrs = Attrs<RustFieldAttr>;

pub type RustVariantAttrs = Attrs<RustVariantAttr>;

impl<Field: View> View for Attrs<Field> {
    type V = Seq<Field::V>;

    open spec fn view(&self) -> Seq<Field::V> {
        self.0@.map_values(|a: Field| a@)
    }
}

/// The type of a record field, with its optionality.
#[derive(Debug, PartialEq, Eq)]
pub struct RustMemberType {
    pub ty: RustType,
    pub is_optional: bool,
}

pub struct RustMemberTypeView {
    pub ty: RustTypeView,
    pub is_optional: bool,
}

impl View for RustMemberType {
    type V = RustMemberTypeView;

    open spec fn view(&self) -> RustMemberTypeView {
        RustMemberTypeView { ty: self.ty@, is_optional: self.is_optional }
    }
}

/// A field of a record.
#[derive(Debug, PartialEq, Eq)]
pub struct RustStructMember {
    pub attr: RustFieldAttrs,
    pub name: String,
    pub ty: RustMemberType,
    pub comment: Option<RustComment>,
}

pub struct RustStructMemberView {
    pub attr: Seq<SerdeFieldAttrView>,
    pub name: Seq<char>,
    pub ty: RustMemberTypeView,
    pub comment: Option<Seq<char>>,
}

impl View for RustStructMember {
    type V = RustStructMemberView;

    open spec fn view(&self) -> RustStructMemberView {
        RustStructMemberView {
            attr: self.attr@,
            name: self.name@,
            ty: self.ty@,
            comment: comment_view(self.comment),
        }
    }
}

/// The payload of a sum-type variant.
#[derive(Debug, PartialEq, Eq)]
pub enum RustEnumMemberKind {
    Nullary(String),
    /// Wraps a type; the variant is named after the type.
    Unary(RustType),
    UnaryNamed { variant_name: String, ty: RustType },
}

pub enum RustEnumMemberKindView {
    Nullary(Seq<char>),
    Unary(RustTypeView),
    UnaryNamed { variant_name: Seq<char>, ty: RustTypeView },
}

impl View for RustEnumMemberKind {
    type V = RustEnumMemberKindView;

    open spec fn view(&self) -> RustEnumMemberKindView {
        match self {
            RustEnumMemberKind::Nullary(n) => RustEnumMemberKindView::Nullary(n@),
            RustEnumMemberKind::Unary(t) => RustEnumMemberKindView::Unary(t@),
            RustEnumMemberKind::UnaryNamed { variant_name, ty } => {
                RustEnumMemberKindView::UnaryNamed {
                    variant_name: variant_name@,
                    ty: ty@,
                }
            },
        }
    }
}

/// A variant of a sum type.
#[derive(Debug, PartialEq, Eq)]
pub struct RustEnumMember {
    pub attr: RustVariantAttrs,
    pub kind: RustEnumMemberKind,
}

pub struct RustEnumMemberView {
    pub attr: Seq<SerdeVariantAttrView>,
    pub kind: RustEnumMemberKindView,
}

impl View for RustEnumMember {
    type V = RustEnumMemberView;

    open spec fn view(&self) -> RustEnumMemberView {
        RustEnumMemberView { attr: self.attr@, kind: self.kind@ }
    }
}

/// A record type.
#[derive(Debug, PartialEq, Eq)]
pub struct RustStruct {
    pub attr: RustContainerAttrs,
    pub name: String,
    pub comment: Option<RustComment>,
    pub is_borrowed: bool,
    pub member: Vec<RustStructMember>,
}

pub struct RustStructView {
    pub attr: Seq<SerdeContainerAttrView>,
    pub name: Seq<char>,
    pub comment: Option<Seq<char>>,
    pub is_borrowed: bool,
    pub member: Seq<RustStructMemberView>,
}

impl View for RustStruct {
    type V = RustStructView;

    open spec fn view(&self) -> RustStructView {
        RustStructView {
            attr: self.attr@,
            name: self.name@,
            comment: comment_view(self.comment),
            is_borrowed: self.is_borrowed,
            member: self.member@.map_values(|m: RustStructMember| m@),
        }
    }
}

/// A sum type.
#[derive(Debug, PartialEq, Eq)]
pub struct RustEnum {
    pub attr: RustContainerAttrs,
    pub name: String,
    pub comment: Option<RustComment>,
    pub is_borrowed: bool,
    pub member: Vec<RustEnumMember>,
}

pub struct RustEnumView {
    pub attr: Seq<SerdeContainerAttrView>,
    pub name: Seq<char>,
    pub comment: Option<Seq<char>>,
    pub is_borrowed: bool,
    pub member: Seq<RustEnumMemberView>,
}

impl View for RustEnum {
    type V = RustEnumView;

    open spec fn view(&self) -> RustEnumView {
        RustEnumView {
            attr: self.attr@,
            name: self.name@,
            comment: comment_view(self.comment),
            is_borrowed: self.is_borrowed,
            member: self.member@.map_values(|m: RustEnumMember| m@),
        }
    }
}

/// A type alias.
#[derive(Debug, PartialEq, Eq)]
pub struct RustAlias {
    pub name: String,
    pub is_borrowed: bool,
    pub comment: Option<RustComment>,
    pub ty: RustType,
}

pub struct RustAliasView {
    pub name: Seq<char>,
    pub is_borrowed: bool,
    pub comment: Option<Seq<char>>,
    pub ty: RustTypeView,
}

impl View for RustAlias {
    type V = RustAliasView;

    open spec fn view(&self) -> RustAliasView {
        RustAliasView {
            name: self.name@,
            is_borrowed: self.is_borrowed,
            comment: comment_view(self.comment),
            ty: self.ty@,
        }
    }
}

/// One top-level named type of the output.
#[derive(Debug, PartialEq, Eq)]
pub enum RustSegment {
    Struct(RustStruct),
    Enum(RustEnum),
    Alias(RustAlias),
}

pub enum RustSegmentView {
    Struct(RustStructView),
    Enum(RustEnumView),
    Alias(RustAliasView),
}

impl View for RustSegment {
    type V = RustSegmentView;

    open spec fn view(&self) -> RustSegmentView {
        match self {
            RustSegment::Struct(s) => RustSegmentView::Struct(s@),
            RustSegment::Enum(e) => RustSegmentView::Enum(e@),
            RustSegment::Alias(a) => RustSegmentView::Alias(a@),
        }
    }
}

/// The views of a list of segments, in order.
pub open spec fn segments_view(segments: Seq<RustSegment>) -> Seq<RustSegmentView> {
    segments.map_values(|s: RustSegment| s@)
}

impl TypeName {
    /// An owned reference to the segment called `name`.
    pub fn new(name: String) -> (r: Self)
        ensures
            r.name == name,
            !r.is_borrowed,
    {
        TypeName { name, is_borrowed: false }
    }
}

impl RustTypeView {
    /// The identifier that stands for the type where a name is needed: the
    /// name of a named type, that of the element type for an array, and a
    /// fixed word for every other form.
    pub open spec fn ident(self) -> Seq<char>
        decreases self,
    {
        match self {
            RustTypeView::String { .. } => "String"@,
            RustTypeView::Number => "Number"@,
            RustTypeView::Boolean => "Boolean"@,
            RustTypeView::Custom(c) => c.name,
            RustTypeView::Array(t) => t.ident(),
            RustTypeView::Unit => "Unit"@,
            RustTypeView::Unknown => "Unknown"@,
            RustTypeView::UnknownLiteral => "UnknownLiteral"@,
            RustTypeView::UnknownIntersection => "UnknownIntersection"@,
            RustTypeView::Dict(..) => "Map"@,
        }
    }

    /// Whether the type holds a placeholder that the emitter cannot
    /// represent: an opaque literal or intersection, directly or inside an
    /// array or a map.
    pub open spec fn is_unknown(self) -> bool
        decreases self,
    {
        match self {
            RustTypeView::UnknownLiteral | RustTypeView::UnknownIntersection => true,
            RustTypeView::Array(t) => t.is_unknown(),
            RustTypeView::Dict(k, v) => k.is_unknown() || v.is_unknown(),
            _ => false,
        }
    }

    /// Whether the type holds borrowed text or a reference-capable named
    /// type, directly or inside an array or a map.
    pub open spec fn is_borrowed(self) -> bool
        decreases self,
    {
        match self {
            RustTypeView::String { is_borrowed } => is_borrowed,
            RustTypeView::Custom(t) => t.is_borrowed,
            RustTypeView::Array(t) => t.is_borrowed(),
            RustTypeView::Dict(k, v) => k.is_borrowed() || v.is_borrowed(),
            _ => false,
        }
    }

    /// The named type that the type is, or is an array of, at any depth.
    pub open spec fn using(self) -> Option<TypeNameView>
        decreases self,
    {
        match self {
            RustTypeView::Custom(t) => Some(t),
            RustTypeView::Array(t) => t.using(),
            _ => None,
        }
    }
}

impl RustType {
    pub fn to_ident(&self) -> (r: &str)
        ensures
            r@ == self@.ident(),
        decreases self,
    {
        match self {
            RustType::String { .. } => "String",
            RustType::Number => "Number",
            RustType::Boolean => "Boolean",
            RustType::Custom(c) => c.name.as_str(),
            RustType::Array(t) => t.to_ident(),
            RustType::Unit => "Unit",
            RustType::Unknown => "Unknown",
            RustType::UnknownLiteral => "UnknownLiteral",
            RustType::UnknownIntersection => "UnknownIntersection",
            RustType::Dict(..) => "Map",
        }
    }

    pub fn is_unknown(&self) -> (r: bool)
        ensures
            r == self@.is_unknown(),
        decreases self,
    {
        match self {
            RustType::UnknownLiteral | RustType::UnknownIntersection => true,
            RustType::Array(t) => t.is_unknown(),
            RustType::Dict(k, v) => k.is_unknown() || v.is_unknown(),
            RustType::Unknown
            | RustType::String { .. }
            | RustType::Number
            | RustType::Boolean
            | RustType::Custom(_)
            | RustType::Unit => false,
        }
    }

    pub fn is_borrowed(&self) -> (r: bool)
        ensures
            r == self@.is_borrowed(),
        decreases self,
    {
        match self {
            RustType::String { is_borrowed } => *is_borrowed,
            RustType::Custom(t) => t.is_borrowed,
            RustType::Array(t) => t.is_borrowed(),
            RustType::Dict(k, v) => k.is_borrowed() || v.is_borrowed(),
            RustType::Number
            | RustType::Boolean
            | RustType::Unit
            | RustType::Unknown
            | RustType::UnknownLiteral
            | RustType::UnknownIntersection => false,
        }
    }

    pub fn as_custom(&self) -> (r: Option<&TypeName>)
        ensures
            match r {
                Some(t) => *self == RustType::Custom(*t),
                None => !(self is Custom),
            },
    {
        if let RustType::Custom(t) = self {
            Some(t)
        } else {
            None
        }
    }

    pub fn as_mut_custom(&mut self) -> (r: Option<&mut TypeName>)
        ensures
            match r {
                Some(t) => *old(self) == RustType::Custom(*t) && *final(self) == RustType::Custom(
                    *final(t),
                ),
                None => !(*old(self) is Custom) && *final(self) == *old(self),
            },
    {
        if let RustType::Custom(t) = self {
            Some(t)
        } else {
            None
        }
    }

    pub fn get_using(&self) -> (r: Option<&TypeName>)
        ensures
            match r {
                Some(t) => self@.using() == Some(t@),
                None => self@.using() is None,
            },
        decreases self,
    {
        if let RustType::Array(t) = self {
            t.get_using()
        } else {
            self.as_custom()
        }
    }

    /// Whether the type is text.
    #[must_use]
    pub fn is_string(&self) -> (r: bool)
        ensures
            r == (self is String),
    {
        matches!(self, RustType::String { .. })
    }
}

impl RenameRule {
    #[must_use]
    pub fn is_pascal_case(&self) -> (r: bool)
        ensures
            r == (*self == RenameRule::PascalCase),
    {
        matches!(self, RenameRule::PascalCase)
    }

    /// The PascalCase form of a name that follows this rule.
    pub open spec fn spec_to_pascal(self, s: Seq<char>) -> Seq<char> {
        match self {
            RenameRule::PascalCase => s,
            _ => pascal_of(s),
        }
    }

    /// Rewrites a name that follows this rule to PascalCase.
    pub fn convert_to_pascal(&self, s: &mut String)
        ensures
            final(s)@ == self.spec_to_pascal(old(s)@),
    {
        match self {
            RenameRule::PascalCase => (),
            RenameRule::SnakeCase | RenameRule::ScreamingSnakeCase => {
                *s = to_pascal(s.as_str());
            },
        }
    }

    /// Rewrites a PascalCase name to snake_case. Only the Pascal rule has
    /// this conversion.
    pub fn convert_to_snake(&self, s: &mut String)
        requires
            *self == RenameRule::PascalCase,
        ensures
            final(s)@ == snake_of(old(s)@),
    {
        *s = to_snake(s.as_str());
    }

    /// The word by which serde knows the rule.
    pub open spec fn serde_name(self) -> Seq<char> {
        match self {
            RenameRule::PascalCase => "PascalCase"@,
            RenameRule::SnakeCase => "snake_case"@,
            RenameRule::ScreamingSnakeCase => "SCREAMING_SNAKE_CASE"@,
        }
    }

    pub fn to_string(&self) -> (r: String)
        ensures
            r@ == self.serde_name(),
    {
        match self {
            RenameRule::PascalCase => "PascalCase".to_owned(),
            RenameRule::SnakeCase => "snake_case".to_owned(),
            RenameRule::ScreamingSnakeCase => "SCREAMING_SNAKE_CASE".to_owned(),
        }
    }
}

impl RustStructAttr {
    pub fn as_serde(&self) -> (r: Option<&SerdeContainerAttr>)
        ensures
            r is Some,
            *self == RustStructAttr::Serde(*r->0),
    {
        let RustStructAttr::Serde(v) = self;
        Some(v)
    }
}

impl SerdeContainerAttr {
    #[must_use]
    pub fn is_tag(&self) -> (r: bool)
        ensures
            r == (self is Tag),
    {
        matches!(self, SerdeContainerAttr::Tag(..))
    }
}

impl<T> Attrs<T> {
    pub fn new() -> (r: Self)
        ensures
            r.0@ == Seq::<T>::empty(),
    {
        Attrs(Vec::new())
    }

    pub fn add_attr(&mut self, a: T)
        ensures
            final(self).0@ == old(self).0@.push(a),
    {
        self.0.push(a)
    }

    pub fn from_attr(a: T) -> (r: Self)
        ensures
            r.0@ == seq![a],
    {
        let mut s = Self::new();
        s.add_attr(a);
        s
    }

    pub fn as_inner(&self) -> (r: &Vec<T>)
        ensures
            *r == self.0,
    {
        &self.0
    }

    /// Keeps the attributes for which `f` answers `true`, in order. `f`
    /// must accept every attribute and decide each of them one way only.
    pub fn retain<F: Fn(&T) -> bool>(&mut self, f: F)
        requires
            forall|a: &T| #[trigger] f.requires((a,)),
            forall|a: &T| !(#[trigger] f.ensures((a,), true) && f.ensures((a,), false)),
        ensures
            final(self).0@ == old(self).0@.filter(|a: T| f.ensures((&a,), true)),
    {
        let ghost keep = |a: T| f.ensures((&a,), true);
        let mut kept: Vec<T> = Vec::new();
        let ghost all = self.0@;
        let ghost mut taken: Seq<T> = Seq::empty();
        while self.0.len() > 0
            invariant
                taken + self.0@ == all,
                kept@ == taken.filter(keep),
                keep == |a: T| f.ensures((&a,), true),
                forall|a: &T| #[trigger] f.requires((a,)),
                forall|a: &T| !(#[trigger] f.ensures((a,), true) && f.ensures((a,), false)),
            decreases self.0.len(),
        {
            let ghost rest = self.0@;
            let a = self.0.remove(0);
            let yes = f(&a);
            proof {
                assert(taken.push(a) + self.0@ =~= taken + rest);
                assert(taken.push(a).drop_last() =~= taken);
                reveal(Seq::filter);
                assert(keep(a) == yes);
            }
            if yes {
                kept.push(a);
            }
            proof {
                taken = taken.push(a);
            }
        }
        proof {
            assert(taken + self.0@ =~= taken);
        }
        self.0 = kept;
    }
}

impl RustMemberType {
    pub fn is_unknown(&self) -> (r: bool)
        ensures
            r == self@.ty.is_unknown(),
    {
        self.ty.is_unknown()
    }
}

impl RustStruct {
    /// A record with the given members and no attributes.
    pub fn from_members(
        name: String,
        comment: Option<RustComment>,
        members: Vec<RustStructMember>,
    ) -> (r: Self)
        ensures
            r.name == name,
            r.comment == comment,
            r.member == members,
            r.attr.0@ == Seq::<RustStructAttr>::empty(),
            !r.is_borrowed,
    {
        RustStruct {
            attr: RustContainerAttrs::new(),
            name,
            comment,
            is_borrowed: false,
            member: members,
        }
    }
}

impl RustEnum {
    /// A sum type with the given variants and no attributes.
    pub fn from_members(
        name: String,
        comment: Option<RustComment>,
        members: Vec<RustEnumMember>,
    ) -> (r: Self)
        ensures
            r.name == name,
            r.comment == comment,
            r.member == members,
            r.attr.0@ == Seq::<RustStructAttr>::empty(),
            !r.is_borrowed,
    {
        RustEnum {
            attr: RustContainerAttrs::new(),
            name,
            comment,
            is_borrowed: false,
            member: members,
        }
    }
}

impl RustEnumMember {
    /// A variant with the given payload and no attributes.
    pub fn from_kind(kind: RustEnumMemberKind) -> (r: Self)
        ensures
            r.kind == kind,
            r.attr.0@ == Seq::<RustVariantAttr>::empty(),
    {
        RustEnumMember { attr: RustVariantAttrs::new(), kind }
    }
}

impl RustEnumMemberKindView {
    /// The type that the variant wraps, if it wraps one.
    pub open spec fn wrapped(self) -> Option<RustTypeView> {
        match self {
            RustEnumMemberKindView::Nullary(_) => None,
            RustEnumMemberKindView::Unary(t) => Some(t),
            RustEnumMemberKindView::UnaryNamed { ty, .. } => Some(ty),
        }
    }

    /// The same variant around another type; a variant without payload
    /// stays as it is.
    pub open spec fn with_wrapped(self, t: RustTypeView) -> Self {
        match self {
            RustEnumMemberKindView::Nullary(_) => self,
            RustEnumMemberKindView::Unary(_) => RustEnumMemberKindView::Unary(t),
            RustEnumMemberKindView::UnaryNamed { variant_name, .. } => RustEnumMemberKindView::UnaryNamed {
                variant_name,
                ty: t,
            },
        }
    }

    /// The identifier of the variant.
    pub open spec fn variant_name(self) -> Seq<char> {
        match self {
            RustEnumMemberKindView::Nullary(n) => n,
            RustEnumMemberKindView::Unary(t) => t.ident(),
            RustEnumMemberKindView::UnaryNamed { variant_name, .. } => variant_name,
        }
    }
}

impl RustEnumMemberKind {
    /// Gives a unary variant an explicit name.
    pub fn name_unary(&mut self, variant_name: String)
        requires
            *old(self) is Unary,
        ensures
            final(self)@ == (RustEnumMemberKindView::UnaryNamed {
                variant_name: variant_name@,
                ty: old(self)@->Unary_0,
            }),
    {
        match self {
            RustEnumMemberKind::Unary(u) => {
                let ty = u.clone();
                *self = RustEnumMemberKind::UnaryNamed { variant_name, ty };
            },
            _ => {},
        }
    }

    /// The identifier of the variant.
    pub fn variant_name(&self) -> (r: &str)
        ensures
            r@ == self@.variant_name(),
    {
        match self {
            RustEnumMemberKind::Nullary(v) => v.as_str(),
            RustEnumMemberKind::Unary(t) => t.to_ident(),
            RustEnumMemberKind::UnaryNamed { variant_name, .. } => variant_name.as_str(),
        }
    }

    #[must_use]
    pub fn is_nullary(&self) -> (r: bool)
        ensures
            r == (self is Nullary),
    {
        matches!(self, RustEnumMemberKind::Nullary(..))
    }

    pub fn as_unary(&self) -> (r: Option<&RustType>)
        ensures
            match r {
                Some(t) => *self == RustEnumMemberKind::Unary(*t),
                None => !(self is Unary),
            },
    {
        if let RustEnumMemberKind::Unary(v) = self {
            Some(v)
        } else {
            None
        }
    }

    pub fn as_type_mut(&mut self) -> (r: Option<&mut RustType>)
        ensures
            match r {
                Some(t) => old(self)@.wrapped() == Some(t@) && final(self)@ == old(self)@.with_wrapped(
                    final(t)@,
                ),
                None => old(self)@.wrapped() is None && *final(self) == *old(self),
            },
    {
        match self {
            RustEnumMemberKind::Nullary(..) => None,
            RustEnumMemberKind::Unary(t) => Some(t),
            RustEnumMemberKind::UnaryNamed { ty, .. } => Some(ty),
        }
    }

    pub fn as_type(&self) -> (r: Option<&RustType>)
        ensures
            match r {
                Some(t) => self@.wrapped() == Some(t@),
                None => self@.wrapped() is None,
            },
    {
        match self {
            RustEnumMemberKind::Nullary(..) => None,
            RustEnumMemberKind::Unary(t) => Some(t),
            RustEnumMemberKind::UnaryNamed { ty, .. } => Some(ty),
        }
    }
}

/// For every record, the record fields whose declared type is one string
/// literal, with that literal: type name, then field name, then value.
pub type LiteralKeyMap = StringMap<StringMap<String>>;

/// The literal key map as a map of maps of character sequences.
pub open spec fn lkm_view(lkm: LiteralKeyMap) -> Map<Seq<char>, Map<Seq<char>, Seq<char>>> {
    lkm@.map_values(|m: StringMap<String>| m@.map_values(|s: String| s@))
}

/// The representation invariant of a literal key map and of the maps in it.
pub open spec fn lkm_wf(lkm: LiteralKeyMap) -> bool {
    &&& lkm.wf()
    &&& forall|k: Seq<char>| #[trigger] lkm@.contains_key(k) ==> lkm@[k].wf()
}

impl RustSegmentView {
    pub open spec fn name(self) -> Seq<char> {
        match self {
            RustSegmentView::Struct(s) => s.name,
            RustSegmentView::Enum(e) => e.name,
            RustSegmentView::Alias(a) => a.name,
        }
    }

    pub open spec fn is_borrowed(self) -> bool {
        match self {
            RustSegmentView::Struct(s) => s.is_borrowed,
            RustSegmentView::Enum(e) => e.is_borrowed,
            RustSegmentView::Alias(a) => a.is_borrowed,
        }
    }
}

impl RustSegment {
    pub fn name(&self) -> (r: &str)
        ensures
            r@ == self@.name(),
    {
        match self {
            RustSegment::Struct(s) => s.name.as_str(),
            RustSegment::Enum(e) => e.name.as_str(),
            RustSegment::Alias(a) => a.name.as_str(),
        }
    }
}

} // verus!
