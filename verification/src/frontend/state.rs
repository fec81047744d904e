//! What the front end builds up: the segments, the cache of literal
//! unions, and the literal key map.

use vstd::prelude::*;
use crate::ir::{
    lkm_view, lkm_wf, segments_view, LiteralKeyMap, RustSegment, RustSegmentView, RustType,
    RustTypeView, TypeName, TypeNameView,
};
use crate::lexical::strings_view;
use crate::strmap::StringMap;
use crate::transformer::internal_tag::LiteralView;

verus! {

/// Why a declaration cannot be converted.
#[derive(Debug, Clone, Copy, PartialEq, Eq, Structural)]
pub enum FrontendError {
    /// An anonymous type stands where there is no path to name it by.
    MissingContext,
    /// A union has no alternative but `null`.
    EmptyUnion,
    /// A keyword type that has no counterpart.
    UnsupportedKeyword,
    /// An interface has a member that is no property.
    UnsupportedMember,
    /// The right-hand side of a type alias has a form that is not handled.
    UnsupportedAlias,
    /// A declaration that is neither an interface nor a type alias.
    UnsupportedDeclaration,
}

/// The cache that maps a sorted set of string literals to the name of the
/// sum type made for it.
#[derive(Debug, PartialEq, Eq)]
pub struct State {
    pub literal_map: Vec<(Vec<String>, String)>,
}

pub type LiteralCache = Seq<(Seq<Seq<char>>, Seq<char>)>;

impl View for State {
    type V = LiteralCache;

    open spec fn view(&self) -> LiteralCache {
        self.literal_map@.map_values(|e: (Vec<String>, String)| (strings_view(e.0@), e.1@))
    }
}

impl State {
    pub fn new() -> (r: Self)
        ensures
            r@ == Seq::<(Seq<Seq<char>>, Seq<char>)>::empty(),
    {
        let r = State { literal_map: Vec::new() };
        assert(r@ =~= Seq::<(Seq<Seq<char>>, Seq<char>)>::empty());
        r
    }
}

/// The segments made so far, with the cache of literal unions.
#[derive(Debug, PartialEq, Eq)]
pub struct FrontendState {
    pub segments: Vec<RustSegment>,
    pub name_types: State,
}

/// The state of the front end as the contracts see it.
pub struct Fs {
    pub segments: Seq<RustSegmentView>,
    pub literal_map: LiteralCache,
    pub lits: LiteralView,
}

impl Fs {
    pub open spec fn empty() -> Fs {
        Fs { segments: Seq::empty(), literal_map: Seq::empty(), lits: Map::empty() }
    }

    /// The state with one more segment.
    pub open spec fn push(self, seg: RustSegmentView) -> Fs {
        Fs { segments: self.segments.push(seg), ..self }
    }
}

/// The state that the segments, the cache and the literal key map make up.
pub open spec fn fs_view(st: FrontendState, lkm: LiteralKeyMap) -> Fs {
    Fs { segments: segments_view(st.segments@), literal_map: st.name_types@, lits: lkm_view(lkm) }
}

/// A reference to an owned named type.
pub open spec fn custom(name: Seq<char>) -> RustTypeView {
    RustTypeView::Custom(TypeNameView { name, is_borrowed: false })
}

impl FrontendState {
    pub fn new() -> (r: Self)
        ensures
            r.segments@ == Seq::<RustSegment>::empty(),
            r.name_types@ == Seq::<(Seq<Seq<char>>, Seq<char>)>::empty(),
    {
        FrontendState { segments: Vec::new(), name_types: State::new() }
    }

    /// Adds a segment.
    pub fn add_segment(&mut self, value: RustSegment)
        ensures
            segments_view(final(self).segments@) == segments_view(old(self).segments@).push(value@),
            final(self).name_types == old(self).name_types,
    {
        self.segments.push(value);
        assert(segments_view(self.segments@) =~= segments_view(old(self).segments@).push(value@));
    }

    /// Adds a segment and returns a reference to it.
    pub fn push_segment(&mut self, value: RustSegment) -> (r: RustType)
        ensures
            segments_view(final(self).segments@) == segments_view(old(self).segments@).push(value@),
            final(self).name_types == old(self).name_types,
            r@ == custom(value@.name()),
    {
        let name = value.name().to_owned();
        self.segments.push(value);
        assert(segments_view(self.segments@) =~= segments_view(old(self).segments@).push(value@));
        RustType::Custom(TypeName::new(name))
    }
}

/// The literal key map with one more entry.
pub open spec fn lits_insert(
    lits: LiteralView,
    record: Seq<char>,
    field: Seq<char>,
    value: Seq<char>,
) -> LiteralView {
    lits.insert(
        record,
        if lits.contains_key(record) {
            lits[record].insert(field, value)
        } else {
            Map::<Seq<char>, Seq<char>>::empty().insert(field, value)
        },
    )
}

/// Records that field `field` of record `record` has the literal type
/// `value`.
pub fn lkm_insert(lkm: &mut LiteralKeyMap, record: &str, field: String, value: String)
    requires
        lkm_wf(*old(lkm)),
    ensures
        lkm_wf(*final(lkm)),
        lkm_view(*final(lkm)) == lits_insert(lkm_view(*old(lkm)), record@, field@, value@),
{
    let ghost before = lkm@;
    let mut inner = match lkm.remove(record) {
        Some(m) => m,
        None => StringMap::new(),
    };
    let ghost inner0 = inner@;
    inner.insert(field, value);
    let ghost inner1 = inner;
    lkm.insert(record.to_owned(), inner);
    proof {
        assert(lkm@ =~= before.insert(record@, inner1));
        let target = lits_insert(lkm_view(*old(lkm)), record@, field@, value@);
        assert(inner1@.map_values(|s: String| s@) =~= if before.contains_key(record@) {
            lkm_view(*old(lkm))[record@].insert(field@, value@)
        } else {
            Map::<Seq<char>, Seq<char>>::empty().insert(field@, value@)
        });
        assert(lkm_view(*lkm) =~= target);
    }
}

} // verus!
