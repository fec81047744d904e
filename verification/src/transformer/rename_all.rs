//! Unifies the letter case of the variant names of a sum type.

use vstd::prelude::*;
use crate::case::{detect_case, spec_detect_case, CaseConvention};
use crate::ir::{
    comment_view, RenameRule, RustEnum, RustEnumMember, RustEnumMemberKind,
    RustEnumMemberKindView, RustEnumMemberView, RustEnumView, RustSegment, RustSegmentView,
    RustStructAttr, RustVariantAttr, RustVariantAttrs, SerdeContainerAttr, SerdeContainerAttrView,
    SerdeVariantAttr, SerdeVariantAttrView,
};

verus! {

/// The identifiers of the variants, in order.
pub open spec fn variant_names(e: RustEnumView) -> Seq<Seq<char>> {
    e.member.map_values(|m: RustEnumMemberView| m.kind.variant_name())
}

/// The convention that all names share: that of the first name, widened
/// from left to right along the two permitted casts. `None` if there is no
/// name, or if some name does not fit what its predecessors agreed on.
pub open spec fn unified_case(names: Seq<Seq<char>>) -> Option<CaseConvention>
    decreases names.len(),
{
    if names.len() == 0 {
        None
    } else if names.len() == 1 {
        Some(spec_detect_case(names[0]))
    } else {
        match unified_case(names.drop_last()) {
            Some(c) => if c.can_cast(spec_detect_case(names.last())) {
                Some(c.cast_result(spec_detect_case(names.last())))
            } else {
                None
            },
            None => None,
        }
    }
}

/// The rule to record on the container, if the names are to be rewritten:
/// there is one shared convention, and it is not PascalCase already.
pub open spec fn rename_rule_of(e: RustEnumView) -> Option<RenameRule> {
    match unified_case(variant_names(e)) {
        Some(c) => if c.spec_rename_rule() == RenameRule::PascalCase {
            None
        } else {
            Some(c.spec_rename_rule())
        },
        None => None,
    }
}

/// The variant with its name in PascalCase. A variant named after its type
/// gets a name of its own.
pub open spec fn renamed_kind(k: RustEnumMemberKindView, rr: RenameRule) -> RustEnumMemberKindView {
    match k {
        RustEnumMemberKindView::Nullary(n) => RustEnumMemberKindView::Nullary(rr.spec_to_pascal(n)),
        RustEnumMemberKindView::Unary(t) => RustEnumMemberKindView::UnaryNamed {
            variant_name: rr.spec_to_pascal(t.ident()),
            ty: t,
        },
        RustEnumMemberKindView::UnaryNamed { variant_name, ty } => RustEnumMemberKindView::UnaryNamed {
            variant_name: rr.spec_to_pascal(variant_name),
            ty,
        },
    }
}

/// Whether the variant has a rename attribute.
pub open spec fn has_rename(attrs: Seq<SerdeVariantAttrView>) -> bool {
    exists|i: int| 0 <= i < attrs.len() && (#[trigger] attrs[i]) is Rename
}

/// The variant with its name in PascalCase. Where that changes the name
/// and the variant has no rename attribute yet, a rename attribute keeps
/// the name it had.
pub open spec fn renamed_member(m: RustEnumMemberView, rr: RenameRule) -> RustEnumMemberView {
    let kind = renamed_kind(m.kind, rr);
    RustEnumMemberView {
        attr: if kind.variant_name() != m.kind.variant_name() && !has_rename(m.attr) {
            m.attr.push(SerdeVariantAttrView::Rename(m.kind.variant_name()))
        } else {
            m.attr
        },
        kind,
    }
}

/// The sum type with every variant name in PascalCase and the rule `rr`
/// recorded on the container.
pub open spec fn renamed(e: RustEnumView, rr: RenameRule) -> RustEnumView {
    RustEnumView {
        attr: e.attr.push(SerdeContainerAttrView::RenameAll(rr)),
        member: e.member.map_values(|m: RustEnumMemberView| renamed_member(m, rr)),
        ..e
    }
}

/// What normalization makes of a segment.
pub open spec fn with_rename_all(seg: RustSegmentView) -> RustSegmentView {
    match seg {
        RustSegmentView::Enum(e) => match rename_rule_of(e) {
            Some(rr) => RustSegmentView::Enum(renamed(e, rr)),
            None => seg,
        },
        _ => seg,
    }
}

/// Whether normalization leaves a sum type as it is.
pub open spec fn rename_all_aborts(seg: RustSegmentView) -> bool {
    seg matches RustSegmentView::Enum(e) && rename_rule_of(e) is None
}

fn unify(e: &RustEnum) -> (r: Option<CaseConvention>)
    ensures
        r == unified_case(variant_names(e@)),
{
    let ghost names = variant_names(e@);
    let mut conv: Option<CaseConvention> = None;
    let mut i: usize = 0;
    while i < e.member.len()
        invariant
            i <= e.member.len(),
            names == variant_names(e@),
            conv == unified_case(names.take(i as int)),
            i > 0 ==> conv is Some,
        decreases e.member.len() - i,
    {
        proof {
            assert(names.take(i + 1).drop_last() =~= names.take(i as int));
            assert(names.take(i + 1).last() == names[i as int]);
            assert(names[i as int] == e@.member[i as int].kind.variant_name());
            assert(names.take(i + 1)[0] == names[0]);
        }
        let new = detect_case(e.member[i].kind.variant_name());
        match conv {
            Some(mut c) => {
                if c.cast(new).is_none() {
                    proof {
                        lemma_unify_fails(names, i + 1);
                        assert(names.take(names.len() as int) =~= names);
                    }
                    return None;
                }
                conv = Some(c);
            },
            None => {
                conv = Some(new);
            },
        }
        i += 1;
    }
    assert(names.take(names.len() as int) =~= names);
    conv
}

/// Once a prefix of the names cannot be unified, no longer prefix can.
proof fn lemma_unify_fails(names: Seq<Seq<char>>, i: int)
    requires
        0 < i <= names.len(),
        unified_case(names.take(i)) is None,
    ensures
        unified_case(names.take(names.len() as int)) is None,
    decreases names.len() - i,
{
    if i < names.len() {
        assert(names.take(i + 1).drop_last() =~= names.take(i));
        lemma_unify_fails(names, i + 1);
    }
}

fn rename_kind(kind: &mut RustEnumMemberKind, rr: RenameRule)
    ensures
        final(kind)@ == renamed_kind(old(kind)@, rr),
{
    match kind {
        RustEnumMemberKind::Unary(v) => {
            let ty = v.clone();
            let mut name = v.to_ident().to_owned();
            rr.convert_to_pascal(&mut name);
            *kind = RustEnumMemberKind::UnaryNamed { variant_name: name, ty };
        },
        RustEnumMemberKind::Nullary(variant_name) => {
            rr.convert_to_pascal(variant_name);
        },
        RustEnumMemberKind::UnaryNamed { variant_name, .. } => {
            rr.convert_to_pascal(variant_name);
        },
    }
}

fn attrs_have_rename(attrs: &RustVariantAttrs) -> (r: bool)
    ensures
        r == has_rename(attrs@),
{
    let mut i: usize = 0;
    while i < attrs.0.len()
        invariant
            i <= attrs.0.len(),
            forall|j: int| 0 <= j < i ==> !((#[trigger] attrs@[j]) is Rename),
        decreases attrs.0.len() - i,
    {
        if matches!(attrs.0[i], RustVariantAttr::Serde(SerdeVariantAttr::Rename(..))) {
            assert(attrs@[i as int] is Rename);
            return true;
        }
        i += 1;
    }
    false
}

fn rename_member(member: &mut RustEnumMember, rr: RenameRule)
    ensures
        final(member)@ == renamed_member(old(member)@, rr),
{
    let before = member.kind.variant_name().to_owned();
    rename_kind(&mut member.kind, rr);
    let changed = !crate::text::str_eq(member.kind.variant_name(), before.as_str());
    if changed && !attrs_have_rename(&member.attr) {
        let ghost attrs = member.attr@;
        member.attr.add_attr(RustVariantAttr::Serde(SerdeVariantAttr::Rename(before)));
        assert(member.attr@ =~= attrs.push(SerdeVariantAttrView::Rename(before@)));
    }
}

/// Rewrites the variant names of a sum type to PascalCase, keeps the names
/// they had in rename attributes, and records the convention they had on
/// the container, if they share one that is not PascalCase. Returns
/// `None`, and leaves the segment as it is, otherwise; a segment that is no
/// sum type is left as it is, with `Some`.
pub fn adapt_rename_all(segment: &mut RustSegment) -> (r: Option<()>)
    ensures
        final(segment)@ == with_rename_all(old(segment)@),
        r is None <==> rename_all_aborts(old(segment)@),
{
    if let RustSegment::Enum(re) = segment {
        let ghost e0 = re@;
        let conv = match unify(re) {
            Some(c) => c,
            None => {
                return None;
            },
        };
        let rr = conv.into_rename_rule();
        if rr.is_pascal_case() {
            return None;
        }
        let mut i: usize = 0;
        while i < re.member.len()
            invariant
                i <= re.member.len(),
                re.member.len() == e0.member.len(),
                forall|j: int| 0 <= j < i ==> (#[trigger] re.member@[j])@ == renamed(e0, rr).member[j],
                forall|j: int| i <= j < re.member.len() ==> (#[trigger] re.member@[j])@ == e0.member[j],
                re.attr@ == e0.attr,
                re.name@ == e0.name,
                comment_view(re.comment) == e0.comment,
                re.is_borrowed == e0.is_borrowed,
            decreases re.member.len() - i,
        {
            rename_member(&mut re.member[i], rr);
            i += 1;
        }
        let ghost attrs = re.attr@;
        re.attr.add_attr(RustStructAttr::Serde(SerdeContainerAttr::RenameAll(rr)));
        proof {
            assert(re.attr@ =~= attrs.push(SerdeContainerAttrView::RenameAll(rr)));
            assert(re@.member =~= renamed(e0, rr).member);
        }
    }
    Some(())
}

} // verus!
