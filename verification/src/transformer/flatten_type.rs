//! Removes the records that only wrap one flattened field.

use vstd::prelude::*;
use crate::ir::{
    RustFieldAttr, RustFieldAttrs, RustSegment, RustSegmentView, RustType, RustTypeView,
    SerdeFieldAttr, SerdeFieldAttrView, segments_view,
};
use crate::strmap::StringMap;
use super::retype::{retype, retype_segment, retype_type, type_map_view};

verus! {

/// Whether a field is to be merged into its parent.
pub open spec fn has_flatten(attrs: Seq<SerdeFieldAttrView>) -> bool {
    attrs.contains(SerdeFieldAttrView::Flatten)
}

/// A wrapper is a record whose only field is flattened.
pub open spec fn is_wrapper(seg: RustSegmentView) -> bool {
    seg matches RustSegmentView::Struct(s) && s.member.len() == 1 && has_flatten(s.member[0].attr)
}

/// The type of the single field of a wrapper.
pub open spec fn wrapped_type(seg: RustSegmentView) -> RustTypeView {
    seg->Struct_0.member[0].ty.ty
}

/// From the name of every wrapper to the type of its field; of two wrappers
/// with one name the later counts.
pub open spec fn wrapper_map(segs: Seq<RustSegmentView>) -> Map<Seq<char>, RustTypeView>
    decreases segs.len(),
{
    if segs.len() == 0 {
        Map::empty()
    } else if is_wrapper(segs.last()) {
        wrapper_map(segs.drop_last()).insert(segs.last().name(), wrapped_type(segs.last()))
    } else {
        wrapper_map(segs.drop_last())
    }
}

/// No wrapper has an optional field: how optionality and flattening
/// combine is not defined.
pub open spec fn flatten_ready(segs: Seq<RustSegmentView>) -> bool {
    forall|i: int|
        0 <= i < segs.len() && is_wrapper(#[trigger] segs[i]) ==> !segs[i]->Struct_0.member[0].ty.is_optional
}

/// The segments without the wrappers, every reference to a wrapper replaced
/// by the type of its field.
pub open spec fn flattened(segs: Seq<RustSegmentView>) -> Seq<RustSegmentView> {
    segs.filter(|s: RustSegmentView| !is_wrapper(s)).map_values(
        |s: RustSegmentView| retype_segment(s, wrapper_map(segs)),
    )
}

/// Flattening leaves no wrapper: every segment it leaves is what
/// retyping makes of a segment that is no wrapper.
pub proof fn lemma_flattened_from_plain(segs: Seq<RustSegmentView>, k: int) -> (i: int)
    requires
        0 <= k < flattened(segs).len(),
    ensures
        0 <= i < segs.len(),
        !is_wrapper(segs[i]),
        flattened(segs)[k] == retype_segment(segs[i], wrapper_map(segs)),
{
    let keep = |s: RustSegmentView| !is_wrapper(s);
    lemma_filter_member(segs, keep, k)
}

/// What a filter keeps is a member that the predicate accepts.
proof fn lemma_filter_member(
    segs: Seq<RustSegmentView>,
    keep: spec_fn(RustSegmentView) -> bool,
    k: int,
) -> (i: int)
    requires
        0 <= k < segs.filter(keep).len(),
    ensures
        0 <= i < segs.len(),
        keep(segs[i]),
        segs.filter(keep)[k] == segs[i],
    decreases segs.len(),
{
    reveal(Seq::filter);
    let init = segs.drop_last();
    if keep(segs.last()) && k == init.filter(keep).len() {
        segs.len() - 1
    } else {
        lemma_filter_member(init, keep, k)
    }
}

/// The wrapper map knows every wrapper; where no two segments carry one
/// name, it gives the name of a wrapper the type of the wrapper's field.
pub proof fn lemma_wrapper_map(segs: Seq<RustSegmentView>, w: int)
    requires
        0 <= w < segs.len(),
        is_wrapper(segs[w]),
        forall|i: int, j: int|
            0 <= i < segs.len() && 0 <= j < segs.len() && i != j ==> (#[trigger] segs[i]).name() != (
            #[trigger] segs[j]).name(),
    ensures
        wrapper_map(segs).contains_key(segs[w].name()),
        wrapper_map(segs)[segs[w].name()] == wrapped_type(segs[w]),
    decreases segs.len(),
{
    if w < segs.len() - 1 {
        let init = segs.drop_last();
        assert forall|i: int, j: int| 0 <= i < init.len() && 0 <= j < init.len() && i != j implies (
        #[trigger] init[i]).name() != (#[trigger] init[j]).name() by {
            assert(init[i] == segs[i] && init[j] == segs[j]);
        }
        lemma_wrapper_map(init, w);
        assert(segs[segs.len() - 1].name() != segs[w].name());
    }
}

/// After flattening, what was a reference to a wrapper is the type of the
/// wrapper's field. It holds where no two segments carry one name.
pub proof fn lemma_reference_to_wrapper(segs: Seq<RustSegmentView>, w: int, is_borrowed: bool)
    requires
        0 <= w < segs.len(),
        is_wrapper(segs[w]),
        forall|i: int, j: int|
            0 <= i < segs.len() && 0 <= j < segs.len() && i != j ==> (#[trigger] segs[i]).name() != (
            #[trigger] segs[j]).name(),
    ensures
        retype_type(
            RustTypeView::Custom(crate::ir::TypeNameView { name: segs[w].name(), is_borrowed }),
            wrapper_map(segs),
        ) == wrapped_type(segs[w]),
{
    lemma_wrapper_map(segs, w);
}

fn attrs_have_flatten(attrs: &RustFieldAttrs) -> (r: bool)
    ensures
        r == has_flatten(attrs@),
{
    let mut i: usize = 0;
    while i < attrs.0.len()
        invariant
            i <= attrs.0.len(),
            forall|j: int| 0 <= j < i ==> attrs@[j] != SerdeFieldAttrView::Flatten,
        decreases attrs.0.len() - i,
    {
        if matches!(attrs.0[i], RustFieldAttr::Serde(SerdeFieldAttr::Flatten)) {
            assert(attrs@[i as int] == SerdeFieldAttrView::Flatten);
            return true;
        }
        i += 1;
    }
    false
}

/// Whether the segment is a record whose only field is flattened.
pub fn segment_is_wrapper(seg: &RustSegment) -> (r: bool)
    ensures
        r == is_wrapper(seg@),
{
    match seg {
        RustSegment::Struct(s) => s.member.len() == 1 && attrs_have_flatten(&s.member[0].attr),
        _ => false,
    }
}

/// Whether `flatten_type` accepts the segments: no wrapper has an optional
/// field.
pub fn can_flatten(segments: &Vec<RustSegment>) -> (r: bool)
    ensures
        r == flatten_ready(segments_view(segments@)),
{
    let mut i: usize = 0;
    while i < segments.len()
        invariant
            i <= segments.len(),
            forall|j: int|
                0 <= j < i && is_wrapper(#[trigger] segments_view(segments@)[j]) ==> !segments_view(
                    segments@,
                )[j]->Struct_0.member[0].ty.is_optional,
        decreases segments.len() - i,
    {
        if segment_is_wrapper(&segments[i]) {
            if let RustSegment::Struct(s) = &segments[i] {
                if s.member[0].ty.is_optional {
                    assert(is_wrapper(segments_view(segments@)[i as int]));
                    return false;
                }
            }
        }
        i += 1;
    }
    true
}

/// Removes every record whose only field is flattened, and replaces the
/// references to it by the type of that field.
pub fn flatten_type(segments: &mut Vec<RustSegment>)
    requires
        flatten_ready(segments_view(old(segments)@)),
    ensures
        segments_view(final(segments)@) == flattened(segments_view(old(segments)@)),
{
    let mut taken: Vec<RustSegment> = Vec::new();
    core::mem::swap(&mut taken, segments);
    let ghost all = segments_view(taken@);
    let ghost keep = |s: RustSegmentView| !is_wrapper(s);
    let mut retype_map: StringMap<RustType> = StringMap::new();
    let mut kept: Vec<RustSegment> = Vec::new();
    proof {
        assert(type_map_view(retype_map@) =~= wrapper_map(all.take(0)));
        reveal(Seq::filter);
        assert(segments_view(kept@) =~= all.take(0).filter(keep));
    }
    for seg in it: taken
        invariant
            segments_view(it.seq()) == all,
            retype_map.wf(),
            type_map_view(retype_map@) == wrapper_map(all.take(it.index() as int)),
            segments_view(kept@) == all.take(it.index() as int).filter(keep),
            keep == |s: RustSegmentView| !is_wrapper(s),
    {
        let ghost i = it.index() as int;
        let ghost kept0 = kept@;
        proof {
            assert(all[i] == seg@);
            assert(all.take(i + 1).drop_last() =~= all.take(i));
            assert(all.take(i + 1).last() == seg@);
            reveal(Seq::filter);
        }
        if segment_is_wrapper(&seg) {
            if let RustSegment::Struct(mut s) = seg {
                let ghost old_map = retype_map@;
                let r = s.member.remove(0);
                retype_map.insert(s.name, r.ty.ty);
                proof {
                    assert(type_map_view(retype_map@) =~= type_map_view(old_map).insert(
                        s.name@,
                        r.ty.ty@,
                    ));
                }
            }
        } else {
            kept.push(seg);
            proof {
                assert(segments_view(kept@) =~= segments_view(kept0).push(seg@));
            }
        }
    }
    proof {
        assert(all.take(all.len() as int) =~= all);
    }
    *segments = kept;
    retype(segments, retype_map);
}

} // verus!
