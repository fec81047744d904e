//! Infers the discriminant field of a sum type from the literal-valued
//! fields of the records that its variants wrap.

use vstd::prelude::*;
use crate::ir::{
    lkm_view, lkm_wf, LiteralKeyMap, RustContainerAttrs, RustEnum, RustEnumMember,
    RustEnumMemberKindView, RustEnumMemberView, RustEnumView, RustSegment, RustSegmentView,
    RustStructAttr, RustTypeView, RustVariantAttr, SerdeContainerAttr, SerdeContainerAttrView,
    SerdeVariantAttr, SerdeVariantAttrView,
};
use crate::strmap::StringMap;
use crate::text::{rename_to_valid_ident, valid_ident_of};

verus! {

pub type LiteralView = Map<Seq<char>, Map<Seq<char>, Seq<char>>>;

/// The name of the record that a variant wraps without a name of its own.
pub open spec fn wrapped_name(v: RustEnumMemberView) -> Option<Seq<char>> {
    match v.kind {
        RustEnumMemberKindView::Unary(RustTypeView::Custom(n)) => Some(n.name),
        _ => None,
    }
}

/// Field `k` is a literal-valued field of the record that `v` wraps.
pub open spec fn variant_has_literal(v: RustEnumMemberView, lits: LiteralView, k: Seq<char>) -> bool {
    wrapped_name(v) matches Some(n) && lits.contains_key(n) && lits[n].contains_key(k)
}

/// Field `k` is a literal-valued field of every wrapped record.
pub open spec fn tag_candidate(e: RustEnumView, lits: LiteralView, k: Seq<char>) -> bool {
    forall|i: int| 0 <= i < e.member.len() ==> variant_has_literal(#[trigger] e.member[i], lits, k)
}

/// The literal that variant `i` has at field `k`.
pub open spec fn tag_value(e: RustEnumView, lits: LiteralView, k: Seq<char>, i: int) -> Seq<char> {
    lits[wrapped_name(e.member[i])->0][k]
}

/// No two variants have the same literal at field `k`.
pub open spec fn distinct_values(e: RustEnumView, lits: LiteralView, k: Seq<char>) -> bool {
    forall|i: int, j: int|
        0 <= i < e.member.len() && 0 <= j < e.member.len() && i != j ==> tag_value(e, lits, k, i)
            != tag_value(e, lits, k, j)
}

/// The discriminant of a sum type: the one field that is literal-valued in
/// every wrapped record, provided that there is at least one variant, that
/// there is exactly one such field, and that the variants' literals at it
/// differ pairwise.
pub open spec fn inferred_tag(e: RustEnumView, lits: LiteralView) -> Option<Seq<char>> {
    let k = choose|k: Seq<char>| tag_candidate(e, lits, k);
    if e.member.len() > 0 && tag_candidate(e, lits, k) && (forall|k2: Seq<char>|
        tag_candidate(e, lits, k2) ==> k2 == k) && distinct_values(e, lits, k) {
        Some(k)
    } else {
        None
    }
}

/// The variant named by a literal: its name is the identifier made of the
/// literal, in PascalCase, and where that differs from the literal, a
/// rename attribute keeps the literal for the wire.
pub open spec fn tagged_variant(m: RustEnumMemberView, value: Seq<char>) -> RustEnumMemberView {
    RustEnumMemberView {
        attr: if valid_ident_of(value) != value {
            m.attr.push(SerdeVariantAttrView::Rename(value))
        } else {
            m.attr
        },
        kind: RustEnumMemberKindView::UnaryNamed {
            variant_name: valid_ident_of(value),
            ty: m.kind->Unary_0,
        },
    }
}

/// The sum type tagged by field `k`: every variant is named by its literal
/// at `k`, and the container attribute `tag` replaces `untagged`.
pub open spec fn tagged(e: RustEnumView, lits: LiteralView, k: Seq<char>) -> RustEnumView {
    RustEnumView {
        attr: e.attr.filter(|a: SerdeContainerAttrView| a != SerdeContainerAttrView::Untagged).push(
            SerdeContainerAttrView::Tag(k),
        ),
        member: Seq::new(
            e.member.len(),
            |i: int| tagged_variant(e.member[i], tag_value(e, lits, k, i)),
        ),
        ..e
    }
}

/// What tag inference makes of a segment: a sum type with a discriminant
/// becomes tagged, everything else stays.
pub open spec fn with_internal_tag(seg: RustSegmentView, lits: LiteralView) -> RustSegmentView {
    match seg {
        RustSegmentView::Enum(e) => match inferred_tag(e, lits) {
            Some(k) => RustSegmentView::Enum(tagged(e, lits, k)),
            None => seg,
        },
        _ => seg,
    }
}

/// Whether tag inference leaves the segment as it is for want of a
/// discriminant.
pub open spec fn tag_inference_aborts(seg: RustSegmentView, lits: LiteralView) -> bool {
    seg matches RustSegmentView::Enum(e) && inferred_tag(e, lits) is None
}

/// Where two different fields are literal-valued in every wrapped record,
/// the choice of a discriminant is ambiguous, and tag inference leaves the
/// sum type as it is.
pub proof fn lemma_ambiguous_tag_aborts(
    e: RustEnumView,
    lits: LiteralView,
    k1: Seq<char>,
    k2: Seq<char>,
)
    requires
        tag_candidate(e, lits, k1),
        tag_candidate(e, lits, k2),
        k1 != k2,
    ensures
        inferred_tag(e, lits) is None,
        with_internal_tag(RustSegmentView::Enum(e), lits) == RustSegmentView::Enum(e),
{
}

/// The literal map of the record that variant `v` wraps, if the variant is
/// unary, wraps a named type, and that type has literal-valued fields on
/// record.
fn literals_of<'a>(v: &RustEnumMember, lkm: &'a LiteralKeyMap) -> (r: Option<&'a StringMap<String>>)
    requires
        lkm_wf(*lkm),
    ensures
        match r {
            Some(m) => wrapped_name(v@) matches Some(n) && lkm@.contains_key(n) && lkm@[n] == *m
                && m.wf(),
            None => !(wrapped_name(v@) matches Some(n) && lkm@.contains_key(n)),
        },
{
    let t = match v.kind.as_unary() {
        Some(t) => t,
        None => {
            return None;
        },
    };
    let n = match t.as_custom() {
        Some(n) => n,
        None => {
            return None;
        },
    };
    lkm.get(n.name.as_str())
}

fn is_candidate(e: &RustEnum, lkm: &LiteralKeyMap, k: &str) -> (r: bool)
    requires
        lkm_wf(*lkm),
    ensures
        r == tag_candidate(e@, lkm_view(*lkm), k@),
{
    let mut i: usize = 0;
    while i < e.member.len()
        invariant
            i <= e.member.len(),
            lkm_wf(*lkm),
            forall|j: int| 0 <= j < i ==> variant_has_literal(#[trigger] e@.member[j], lkm_view(*lkm), k@),
        decreases e.member.len() - i,
    {
        let ok = match literals_of(&e.member[i], lkm) {
            Some(m) => m.contains_key(k),
            None => false,
        };
        assert(ok == variant_has_literal(e@.member[i as int], lkm_view(*lkm), k@));
        if !ok {
            return false;
        }
        i += 1;
    }
    true
}

/// The one candidate among the literal-valued fields of the first wrapped
/// record, if exactly one of them is a candidate.
fn single_candidate<'a>(e: &RustEnum, lkm: &'a LiteralKeyMap) -> (r: Option<&'a str>)
    requires
        lkm_wf(*lkm),
        e.member.len() > 0,
    ensures
        match r {
            Some(k) => tag_candidate(e@, lkm_view(*lkm), k@) && forall|k2: Seq<char>|
                tag_candidate(e@, lkm_view(*lkm), k2) ==> k2 == k@,
            None => !(exists|k: Seq<char>|
                tag_candidate(e@, lkm_view(*lkm), k) && forall|k2: Seq<char>|
                    tag_candidate(e@, lkm_view(*lkm), k2) ==> k2 == k),
        },
{
    let ghost lits = lkm_view(*lkm);
    let first = match literals_of(&e.member[0], lkm) {
        Some(m) => m,
        None => {
            proof {
                assert forall|k: Seq<char>| !tag_candidate(e@, lits, k) by {
                    if tag_candidate(e@, lits, k) {
                        assert(variant_has_literal(e@.member[0], lits, k));
                    }
                }
            }
            return None;
        },
    };
    proof {
        first.lemma_keys();
    }
    let mut found: Option<usize> = None;
    let mut i: usize = 0;
    while i < first.len()
        invariant
            i <= first.keys().len(),
            lkm_wf(*lkm),
            first.wf(),
            first.keys().no_duplicates(),
            lits == lkm_view(*lkm),
            match found {
                Some(j) => j < i && tag_candidate(e@, lits, first.keys()[j as int]) && forall|m: int|
                    0 <= m < i && m != j ==> !tag_candidate(e@, lits, #[trigger] first.keys()[m]),
                None => forall|m: int| 0 <= m < i ==> !tag_candidate(e@, lits, #[trigger] first.keys()[m]),
            },
        decreases first.keys().len() - i,
    {
        if is_candidate(e, lkm, first.key_at(i)) {
            if found.is_some() {
                proof {
                    let a = first.keys()[found->0 as int];
                    let b = first.keys()[i as int];
                    assert(a != b);
                    assert forall|k: Seq<char>|
                        !(tag_candidate(e@, lits, k) && forall|k2: Seq<char>|
                            tag_candidate(e@, lits, k2) ==> k2 == k) by {
                        if tag_candidate(e@, lits, k) && forall|k2: Seq<char>|
                            tag_candidate(e@, lits, k2) ==> k2 == k {
                            assert(a == k);
                            assert(b == k);
                        }
                    }
                }
                return None;
            }
            found = Some(i);
        }
        i += 1;
    }
    proof {
        let n0 = wrapped_name(e@.member[0])->0;
        assert forall|k: Seq<char>| tag_candidate(e@, lits, k) implies first.keys().contains(k) by {
            assert(variant_has_literal(e@.member[0], lits, k));
            assert(lits[n0].contains_key(k));
            assert(first@.contains_key(k));
        }
        match found {
            Some(j) => {
                assert forall|k2: Seq<char>| tag_candidate(e@, lits, k2) implies k2 == first.keys()[j as int] by {
                    let m = choose|m: int| 0 <= m < first.keys().len() && first.keys()[m] == k2;
                    assert(m == j);
                }
            },
            None => {
                assert forall|k: Seq<char>| !tag_candidate(e@, lits, k) by {
                    if tag_candidate(e@, lits, k) {
                        let m = choose|m: int| 0 <= m < first.keys().len() && first.keys()[m] == k;
                        assert(!tag_candidate(e@, lits, first.keys()[m]));
                    }
                }
            },
        }
    }
    match found {
        Some(j) => Some(first.key_at(j)),
        None => None,
    }
}

/// The literals of the variants at field `k`, or `None` if two of them are
/// equal.
fn collect_values(e: &RustEnum, lkm: &LiteralKeyMap, k: &str) -> (r: Option<Vec<String>>)
    requires
        lkm_wf(*lkm),
        tag_candidate(e@, lkm_view(*lkm), k@),
    ensures
        match r {
            Some(vs) => distinct_values(e@, lkm_view(*lkm), k@) && vs.len() == e.member.len()
                && forall|i: int|
                0 <= i < vs.len() ==> (#[trigger] vs[i])@ == tag_value(e@, lkm_view(*lkm), k@, i),
            None => !distinct_values(e@, lkm_view(*lkm), k@),
        },
{
    let ghost lits = lkm_view(*lkm);
    let mut values: Vec<String> = Vec::new();
    let mut i: usize = 0;
    while i < e.member.len()
        invariant
            i <= e.member.len(),
            lkm_wf(*lkm),
            lits == lkm_view(*lkm),
            tag_candidate(e@, lits, k@),
            values.len() == i,
            forall|j: int| 0 <= j < i ==> (#[trigger] values[j])@ == tag_value(e@, lits, k@, j),
            forall|a: int, b: int| 0 <= a < i && 0 <= b < i && a != b ==> tag_value(e@, lits, k@, a) != tag_value(e@, lits, k@, b),
        decreases e.member.len() - i,
    {
        assert(variant_has_literal(e@.member[i as int], lits, k@));
        let value = match literals_of(&e.member[i], lkm) {
            Some(m) => match m.get(k) {
                Some(v) => v.clone(),
                None => {
                    return None;
                },
            },
            None => {
                return None;
            },
        };
        assert(value@ == tag_value(e@, lits, k@, i as int));
        let mut j: usize = 0;
        while j < i
            invariant
                j <= i,
                i == values.len(),
                i < e.member.len(),
                lits == lkm_view(*lkm),
                value@ == tag_value(e@, lits, k@, i as int),
                forall|m: int| 0 <= m < i ==> (#[trigger] values[m])@ == tag_value(e@, lits, k@, m),
                forall|m: int| 0 <= m < j ==> tag_value(e@, lits, k@, m) != value@,
            decreases i - j,
        {
            if values[j] == value {
                assert(tag_value(e@, lits, k@, j as int) == tag_value(e@, lits, k@, i as int));
                return None;
            }
            j += 1;
        }
        values.push(value);
        i += 1;
    }
    Some(values)
}

/// Removes the `untagged` attributes.
fn drop_untagged(attrs: &mut RustContainerAttrs)
    ensures
        final(attrs)@ == old(attrs)@.filter(
            |a: SerdeContainerAttrView| a != SerdeContainerAttrView::Untagged,
        ),
{
    let ghost keep = |a: SerdeContainerAttrView| a != SerdeContainerAttrView::Untagged;
    let mut taken: Vec<RustStructAttr> = Vec::new();
    core::mem::swap(&mut taken, &mut attrs.0);
    let ghost all = taken@.map_values(|a: RustStructAttr| a@);
    proof {
        reveal(Seq::filter);
        assert(attrs@ =~= all.take(0).filter(keep));
    }
    for a in it: taken
        invariant
            it.seq().map_values(|a: RustStructAttr| a@) == all,
            attrs@ == all.take(it.index() as int).filter(keep),
            keep == |a: SerdeContainerAttrView| a != SerdeContainerAttrView::Untagged,
    {
        let ghost i = it.index() as int;
        let ghost before = attrs@;
        proof {
            assert(all[i] == a@);
            assert(all.take(i + 1).drop_last() =~= all.take(i));
            reveal(Seq::filter);
        }
        if !matches!(a, RustStructAttr::Serde(SerdeContainerAttr::Untagged)) {
            attrs.add_attr(a);
            proof {
                assert(attrs@ =~= before.push(a@));
            }
        }
    }
    proof {
        assert(all.take(all.len() as int) =~= all);
    }
}

/// Finds the discriminant of a sum type and tags the type by it: every
/// variant is renamed to the identifier of its literal at the discriminant,
/// with a rename attribute where the identifier is not the literal. Returns
/// `None`, and leaves the segment as it is, when no discriminant can be
/// inferred; a segment that is no sum type is left as it is, with `Some`.
pub fn adapt_internal_tag(segment: &mut RustSegment, lkm: &LiteralKeyMap) -> (r: Option<()>)
    requires
        lkm_wf(*lkm),
    ensures
        final(segment)@ == with_internal_tag(old(segment)@, lkm_view(*lkm)),
        r is None <==> tag_inference_aborts(old(segment)@, lkm_view(*lkm)),
{
    let ghost lits = lkm_view(*lkm);
    if let RustSegment::Enum(re) = segment {
        let ghost e0 = re@;
        if re.member.len() == 0 {
            return None;
        }
        let tag_name = match single_candidate(re, lkm) {
            Some(k) => k,
            None => {
                return None;
            },
        };
        let values = match collect_values(re, lkm, tag_name) {
            Some(vs) => vs,
            None => {
                return None;
            },
        };
        assert(inferred_tag(e0, lits) == Some(tag_name@));
        let mut i: usize = 0;
        while i < re.member.len()
            invariant
                i <= re.member.len(),
                re.member.len() == e0.member.len(),
                values.len() == e0.member.len(),
                tag_candidate(e0, lits, tag_name@),
                forall|j: int| 0 <= j < values.len() ==> (#[trigger] values[j])@ == tag_value(e0, lits, tag_name@, j),
                forall|j: int| 0 <= j < i ==> (#[trigger] re.member@[j])@ == tagged(e0, lits, tag_name@).member[j],
                forall|j: int| i <= j < re.member.len() ==> (#[trigger] re.member@[j])@ == e0.member[j],
                re.attr@ == e0.attr,
                re.name@ == e0.name,
                crate::ir::comment_view(re.comment) == e0.comment,
                re.is_borrowed == e0.is_borrowed,
            decreases re.member.len() - i,
        {
            assert(variant_has_literal(e0.member[i as int], lits, tag_name@));
            let name = rename_to_valid_ident(values[i].as_str());
            if name != values[i] {
                let ghost attrs = re.member@[i as int].attr@;
                re.member[i].attr.add_attr(
                    RustVariantAttr::Serde(SerdeVariantAttr::Rename(values[i].clone())),
                );
                assert(re.member@[i as int].attr@ =~= attrs.push(
                    SerdeVariantAttrView::Rename(values@[i as int]@),
                ));
            }
            re.member[i].kind.name_unary(name);
            i += 1;
        }
        drop_untagged(&mut re.attr);
        let ghost filtered = re.attr@;
        re.attr.add_attr(RustStructAttr::Serde(SerdeContainerAttr::Tag(tag_name.to_owned())));
        proof {
            assert(re.attr@ =~= filtered.push(SerdeContainerAttrView::Tag(tag_name@)));
            assert(re@.member =~= tagged(e0, lits, tag_name@).member);
        }
    }
    Some(())
}

} // verus!
