//! Splits the alternatives of a union of object types into what they have
//! in common and what is particular to each.

use vstd::prelude::*;
use crate::ast::{
    element_depth, element_eq, elements_depth, lemma_elements_depth, lemma_elements_depth_bound,
    same_element, TsTypeElement,
};

verus! {

/// The members that all alternatives share, and for each alternative the
/// members that are its own.
pub struct Merged<'a> {
    pub intersection: Vec<&'a TsTypeElement>,
    pub diffs: Vec<Vec<&'a TsTypeElement>>,
}

pub struct MergedView {
    pub intersection: Seq<TsTypeElement>,
    pub diffs: Seq<Seq<TsTypeElement>>,
}

/// The members that a list of references stands for.
pub open spec fn refs_view(v: Seq<&TsTypeElement>) -> Seq<TsTypeElement> {
    v.map_values(|e: &TsTypeElement| *e)
}

/// The lists of members that a list of lists of references stands for.
pub open spec fn refs_lists_view(v: Seq<Vec<&TsTypeElement>>) -> Seq<Seq<TsTypeElement>> {
    v.map_values(|d: Vec<&TsTypeElement>| refs_view(d@))
}

impl<'a> View for Merged<'a> {
    type V = MergedView;

    open spec fn view(&self) -> MergedView {
        MergedView {
            intersection: refs_view(self.intersection@),
            diffs: refs_lists_view(self.diffs@),
        }
    }
}

/// The first position from `k` on at which `diff` holds a member of the
/// same structure as `e`.
pub open spec fn find_from(diff: Seq<TsTypeElement>, e: TsTypeElement, k: int) -> Option<int>
    decreases diff.len() - k,
{
    if k < 0 || k >= diff.len() {
        None
    } else if same_element(e, diff[k]) {
        Some(k)
    } else {
        find_from(diff, e, k + 1)
    }
}

/// The state of one pass over the running intersection: what stays in
/// common, what is left of the current alternative, and the particular
/// members of the earlier alternatives.
pub struct RetainState {
    pub kept: Seq<TsTypeElement>,
    pub diff: Seq<TsTypeElement>,
    pub diffs: Seq<Seq<TsTypeElement>>,
}

/// One pass over the first `upto` members of the running intersection
/// `inter`, against the alternative `diff0`: a member that the alternative
/// holds stays in common and leaves the alternative; any other leaves the
/// intersection and joins the particular members of every earlier
/// alternative.
pub open spec fn retain_upto(
    inter: Seq<TsTypeElement>,
    upto: int,
    diff0: Seq<TsTypeElement>,
    diffs0: Seq<Seq<TsTypeElement>>,
) -> RetainState
    decreases upto,
{
    if upto <= 0 {
        RetainState { kept: Seq::empty(), diff: diff0, diffs: diffs0 }
    } else {
        let st = retain_upto(inter, upto - 1, diff0, diffs0);
        let e = inter[upto - 1];
        match find_from(st.diff, e, 0) {
            Some(index) => RetainState { kept: st.kept.push(e), diff: st.diff.remove(index), diffs: st.diffs },
            None => RetainState {
                kept: st.kept,
                diff: st.diff,
                diffs: st.diffs.map_values(|d: Seq<TsTypeElement>| d.push(e)),
            },
        }
    }
}

/// The split of the first `n` alternatives: the intersection starts as the
/// first alternative and shrinks with every further one.
pub open spec fn merge_upto(variants: Seq<Seq<TsTypeElement>>, n: int) -> MergedView
    decreases n,
{
    if n <= 1 {
        MergedView { intersection: variants[0], diffs: seq![Seq::empty()] }
    } else {
        let m = merge_upto(variants, n - 1);
        let st = retain_upto(m.intersection, m.intersection.len() as int, variants[n - 1], m.diffs);
        MergedView { intersection: st.kept, diffs: st.diffs.push(st.diff) }
    }
}

/// The split of all alternatives.
pub open spec fn spec_merge(variants: Seq<Seq<TsTypeElement>>) -> MergedView {
    merge_upto(variants, variants.len() as int)
}

/// The greatest depth among the members of all lists.
pub open spec fn lists_depth(v: Seq<Seq<TsTypeElement>>) -> nat
    decreases v.len(),
{
    if v.len() == 0 {
        0
    } else {
        let rest = lists_depth(v.drop_last());
        let last = elements_depth(v.last());
        if rest >= last {
            rest
        } else {
            last
        }
    }
}

pub proof fn lemma_lists_depth(v: Seq<Seq<TsTypeElement>>, i: int)
    requires
        0 <= i < v.len(),
    ensures
        elements_depth(v[i]) <= lists_depth(v),
    decreases v.len(),
{
    if i < v.len() - 1 {
        lemma_lists_depth(v.drop_last(), i);
    }
}

pub proof fn lemma_lists_depth_bound(v: Seq<Seq<TsTypeElement>>, d: nat)
    requires
        forall|i: int| 0 <= i < v.len() ==> elements_depth(#[trigger] v[i]) <= d,
    ensures
        lists_depth(v) <= d,
    decreases v.len(),
{
    if v.len() > 0 {
        assert(elements_depth(v[v.len() - 1]) <= d);
        assert forall|i: int| 0 <= i < v.drop_last().len() implies elements_depth(
            #[trigger] v.drop_last()[i],
        ) <= d by {
            assert(v.drop_last()[i] == v[i]);
        }
        lemma_lists_depth_bound(v.drop_last(), d);
    }
}

/// Every member of every list is no deeper than `d`.
pub open spec fn all_within(v: Seq<Seq<TsTypeElement>>, d: nat) -> bool {
    forall|i: int, k: int|
        0 <= i < v.len() && 0 <= k < v[i].len() ==> element_depth(#[trigger] v[i][k]) <= d
}

pub open spec fn within(v: Seq<TsTypeElement>, d: nat) -> bool {
    forall|k: int| 0 <= k < v.len() ==> element_depth(#[trigger] v[k]) <= d
}

proof fn lemma_retain_within(
    inter: Seq<TsTypeElement>,
    upto: int,
    diff0: Seq<TsTypeElement>,
    diffs0: Seq<Seq<TsTypeElement>>,
    d: nat,
)
    requires
        0 <= upto <= inter.len(),
        within(inter, d),
        within(diff0, d),
        all_within(diffs0, d),
    ensures
        within(retain_upto(inter, upto, diff0, diffs0).kept, d),
        within(retain_upto(inter, upto, diff0, diffs0).diff, d),
        all_within(retain_upto(inter, upto, diff0, diffs0).diffs, d),
        retain_upto(inter, upto, diff0, diffs0).diffs.len() == diffs0.len(),
    decreases upto,
{
    if upto > 0 {
        let st = retain_upto(inter, upto - 1, diff0, diffs0);
        lemma_retain_within(inter, upto - 1, diff0, diffs0, d);
        let e = inter[upto - 1];
        let out = retain_upto(inter, upto, diff0, diffs0);
        match find_from(st.diff, e, 0) {
            Some(index) => {
                lemma_find_from(st.diff, e, 0);
                assert forall|k: int| 0 <= k < out.diff.len() implies element_depth(
                    #[trigger] out.diff[k],
                ) <= d by {
                    if k < index {
                        assert(out.diff[k] == st.diff[k]);
                    } else {
                        assert(out.diff[k] == st.diff[k + 1]);
                    }
                }
                assert forall|k: int| 0 <= k < out.kept.len() implies element_depth(
                    #[trigger] out.kept[k],
                ) <= d by {
                    if k < st.kept.len() {
                        assert(out.kept[k] == st.kept[k]);
                    }
                }
            },
            None => {
                assert forall|i: int, k: int|
                    0 <= i < out.diffs.len() && 0 <= k < out.diffs[i].len() implies element_depth(
                    #[trigger] out.diffs[i][k],
                ) <= d by {
                    if k < st.diffs[i].len() {
                        assert(out.diffs[i][k] == st.diffs[i][k]);
                    }
                }
            },
        }
    }
}

/// What `find_from` finds is a position of the list.
pub proof fn lemma_find_from(diff: Seq<TsTypeElement>, e: TsTypeElement, k: int)
    requires
        0 <= k,
    ensures
        find_from(diff, e, k) matches Some(i) ==> k <= i < diff.len() && same_element(e, diff[i]),
    decreases diff.len() - k,
{
    if k < diff.len() && !same_element(e, diff[k]) {
        lemma_find_from(diff, e, k + 1);
    }
}

proof fn lemma_merge_within(variants: Seq<Seq<TsTypeElement>>, n: int, d: nat)
    requires
        1 <= n <= variants.len(),
        all_within(variants, d),
    ensures
        within(merge_upto(variants, n).intersection, d),
        all_within(merge_upto(variants, n).diffs, d),
        merge_upto(variants, n).diffs.len() == n,
    decreases n,
{
    if n <= 1 {
        assert forall|k: int| 0 <= k < variants[0].len() implies element_depth(#[trigger] variants[0][k])
            <= d by {}
    } else {
        let m = merge_upto(variants, n - 1);
        lemma_merge_within(variants, n - 1, d);
        assert forall|k: int| 0 <= k < variants[n - 1].len() implies element_depth(
            #[trigger] variants[n - 1][k],
        ) <= d by {}
        lemma_retain_within(m.intersection, m.intersection.len() as int, variants[n - 1], m.diffs, d);
        let st = retain_upto(m.intersection, m.intersection.len() as int, variants[n - 1], m.diffs);
        let out = merge_upto(variants, n);
        assert forall|i: int, k: int|
            0 <= i < out.diffs.len() && 0 <= k < out.diffs[i].len() implies element_depth(
            #[trigger] out.diffs[i][k],
        ) <= d by {
            if i < st.diffs.len() {
                assert(out.diffs[i] == st.diffs[i]);
            }
        }
    }
}

/// Nothing in the split is deeper than the deepest member of the
/// alternatives.
pub proof fn lemma_merge_depth(variants: Seq<Seq<TsTypeElement>>)
    requires
        variants.len() >= 1,
    ensures
        elements_depth(spec_merge(variants).intersection) <= lists_depth(variants),
        lists_depth(spec_merge(variants).diffs) <= lists_depth(variants),
        spec_merge(variants).diffs.len() == variants.len(),
{
    let d = lists_depth(variants);
    assert(all_within(variants, d)) by {
        assert forall|i: int, k: int| 0 <= i < variants.len() && 0 <= k < variants[i].len() implies element_depth(
            #[trigger] variants[i][k],
        ) <= d by {
            lemma_lists_depth(variants, i);
            lemma_elements_depth(variants[i], k);
        }
    }
    lemma_merge_within(variants, variants.len() as int, d);
    let m = spec_merge(variants);
    lemma_elements_depth_bound(m.intersection, d);
    assert forall|i: int| 0 <= i < m.diffs.len() implies elements_depth(#[trigger] m.diffs[i]) <= d by {
        assert forall|k: int| 0 <= k < m.diffs[i].len() implies element_depth(#[trigger] m.diffs[i][k])
            <= d by {}
        lemma_elements_depth_bound(m.diffs[i], d);
    }
    lemma_lists_depth_bound(m.diffs, d);
}

/// The first position at which `diff` holds a member of the same structure
/// as `e`.
fn position_of(diff: &Vec<&TsTypeElement>, e: &TsTypeElement) -> (r: Option<usize>)
    ensures
        match r {
            Some(i) => find_from(refs_view(diff@), *e, 0) == Some(i as int) && i < diff.len(),
            None => find_from(refs_view(diff@), *e, 0) is None,
        },
{
    let ghost d = refs_view(diff@);
    let mut k: usize = 0;
    while k < diff.len()
        invariant
            k <= diff.len(),
            d == refs_view(diff@),
            find_from(d, *e, 0) == find_from(d, *e, k as int),
        decreases diff.len() - k,
    {
        if element_eq(e, diff[k]) {
            return Some(k);
        }
        k += 1;
    }
    None
}

/// The views of the alternatives.
pub open spec fn variants_view(variants: Seq<&Vec<TsTypeElement>>) -> Seq<Seq<TsTypeElement>> {
    variants.map_values(|v: &Vec<TsTypeElement>| v@)
}

/// References to the members of a list.
pub fn refs_of<'a>(members: &'a Vec<TsTypeElement>) -> (r: Vec<&'a TsTypeElement>)
    ensures
        refs_view(r@) == members@,
{
    let mut out: Vec<&'a TsTypeElement> = Vec::new();
    let mut i: usize = 0;
    while i < members.len()
        invariant
            i <= members.len(),
            refs_view(out@) == members@.take(i as int),
        decreases members.len() - i,
    {
        let ghost before = refs_view(out@);
        let e = &members[i];
        out.push(e);
        assert(refs_view(out@) =~= before.push(*e));
        assert(members@.take(i + 1) =~= members@.take(i as int).push(members@[i as int]));
        i += 1;
    }
    assert(members@.take(members.len() as int) =~= members@);
    out
}

/// Splits the members of the alternatives of a union into the members that
/// all alternatives share and, for each alternative, the members that are
/// its own. There has to be at least one alternative.
pub fn merge_union_type_lits<'a>(variants: &Vec<&'a Vec<TsTypeElement>>) -> (r: Merged<'a>)
    requires
        variants.len() > 0,
    ensures
        r@ == spec_merge(variants_view(variants@)),
{
    let ghost vs = variants_view(variants@);
    let mut intersection: Vec<&'a TsTypeElement> = refs_of(variants[0]);
    let mut diffs: Vec<Vec<&'a TsTypeElement>> = Vec::new();
    diffs.push(Vec::new());
    assert(refs_lists_view(diffs@) =~= seq![Seq::<TsTypeElement>::empty()]) by {
        assert(refs_view(diffs@[0]@) =~= Seq::<TsTypeElement>::empty());
    }
    let mut n: usize = 1;
    while n < variants.len()
        invariant
            1 <= n <= variants.len(),
            vs == variants_view(variants@),
            refs_view(intersection@) == merge_upto(vs, n as int).intersection,
            refs_lists_view(diffs@) == merge_upto(vs, n as int).diffs,
        decreases variants.len() - n,
    {
        let mut diff: Vec<&'a TsTypeElement> = refs_of(variants[n]);
        let ghost inter0 = refs_view(intersection@);
        let ghost diff0 = refs_view(diff@);
        let ghost diffs0 = refs_lists_view(diffs@);
        let mut kept: Vec<&'a TsTypeElement> = Vec::new();
        let mut i: usize = 0;
        assert(refs_view(kept@) =~= Seq::<TsTypeElement>::empty());
        while i < intersection.len()
            invariant
                i <= intersection.len(),
                inter0 == refs_view(intersection@),
                refs_view(kept@) == retain_upto(inter0, i as int, diff0, diffs0).kept,
                refs_view(diff@) == retain_upto(inter0, i as int, diff0, diffs0).diff,
                refs_lists_view(diffs@) == retain_upto(inter0, i as int, diff0, diffs0).diffs,
            decreases intersection.len() - i,
        {
            let e = intersection[i];
            let ghost st = retain_upto(inter0, i as int, diff0, diffs0);
            assert(inter0[i as int] == *e);
            match position_of(&diff, e) {
                Some(index) => {
                    let _ = diff.remove(index);
                    kept.push(e);
                    proof {
                        assert(refs_view(diff@) =~= st.diff.remove(index as int));
                        assert(refs_view(kept@) =~= st.kept.push(*e));
                    }
                },
                None => {
                    let mut j: usize = 0;
                    while j < diffs.len()
                        invariant
                            j <= diffs.len(),
                            diffs.len() == st.diffs.len(),
                            forall|m: int| 0 <= m < j ==> refs_view((#[trigger] diffs@[m])@) == st.diffs[m].push(*e),
                            forall|m: int| j <= m < diffs.len() ==> refs_view((#[trigger] diffs@[m])@) == st.diffs[m],
                        decreases diffs.len() - j,
                    {
                        let ghost before = refs_view(diffs@[j as int]@);
                        diffs[j].push(e);
                        assert(refs_view(diffs@[j as int]@) =~= before.push(*e));
                        j += 1;
                    }
                    assert(refs_lists_view(diffs@) =~= st.diffs.map_values(
                        |d: Seq<TsTypeElement>| d.push(*e),
                    ));
                },
            }
            i += 1;
        }
        let ghost done = refs_lists_view(diffs@);
        diffs.push(diff);
        assert(refs_lists_view(diffs@) =~= done.push(refs_view(diff@)));
        intersection = kept;
        n += 1;
    }
    Merged { intersection, diffs }
}

} // verus!
