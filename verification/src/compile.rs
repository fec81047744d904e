//! The whole compiler: from the declarations of a module to the tokens of
//! the Rust declarations.

use vstd::prelude::*;
use proc_macro2::TokenStream;
use crate::ast::Decl;
use crate::frontend::declarations::{convert_module, spec_module};
use crate::frontend::laws::{lemma_module_unmarked, unmarked};
use crate::frontend::state::FrontendError;
use crate::ir::deps::{deps_graph, lemma_deps_upto, segment_refs, type_deps};
use crate::ir::{lkm_view, lkm_wf, segments_view, LiteralKeyMap, RustSegment, RustSegmentView};
use crate::lexical::strings_view;
use crate::to_tokens::{emit_segment, is_emittable, segment_emittable, segments_tokens};
use crate::tokens::{stream_tokens, Token};
use crate::transformer::borrow::{
    adapt_borrow, borrow_solution, lemma_borrow_reaches_transitive_users, unique_names,
};
use crate::transformer::flatten_type::{
    can_flatten, flatten_ready, flatten_type, flattened, lemma_flattened_from_plain,
};
use crate::transformer::internal_tag::{adapt_internal_tag, with_internal_tag, LiteralView};
use crate::transformer::rename_all::{adapt_rename_all, with_rename_all};

verus! {

/// Why a module cannot be compiled.
#[derive(Debug, PartialEq, Eq)]
pub enum CompileError {
    /// A declaration cannot be converted.
    Frontend(FrontendError),
    /// A record that only wraps a flattened field has that field optional.
    OptionalFlatten,
    /// Two segments carry this name.
    DuplicateName(String),
    /// The segments of these names use one another in a cycle: each is used
    /// by the next, and the last by the first.
    CyclicDependency(Vec<String>),
    /// The segment of this name spells out a name that is no identifier.
    InvalidIdentifier(String),
}

/// The segments after tag inference and case normalization, each segment
/// by itself.
pub open spec fn adapted(segs: Seq<RustSegmentView>, lits: LiteralView) -> Seq<RustSegmentView> {
    segs.map_values(|s: RustSegmentView| with_rename_all(with_internal_tag(s, lits)))
}

/// The segments as the reference pass finds them: adapted, then flattened.
pub open spec fn prepared(segs: Seq<RustSegmentView>, lits: LiteralView) -> Seq<RustSegmentView> {
    flattened(adapted(segs, lits))
}

/// Segment `j` is the first that carries the name of an earlier one.
pub open spec fn is_first_repeat(segs: Seq<RustSegmentView>, j: int) -> bool {
    &&& 0 <= j < segs.len()
    &&& exists|i: int| 0 <= i < j && (#[trigger] segs[i]).name() == segs[j].name()
    &&& forall|a: int, b: int| 0 <= a < b < j ==> (#[trigger] segs[a]).name() != (#[trigger] segs[b]).name()
}

/// The name is that of the first segment that carries the name of an
/// earlier one.
pub open spec fn is_duplicate(segs: Seq<RustSegmentView>, name: Seq<char>) -> bool {
    exists|j: int| is_first_repeat(segs, j) && (#[trigger] segs[j]).name() == name
}

/// Segment `i` is the first that cannot be emitted.
pub open spec fn is_first_unemittable(segs: Seq<RustSegmentView>, i: int) -> bool {
    &&& 0 <= i < segs.len()
    &&& !segment_emittable(segs[i])
    &&& forall|j: int| 0 <= j < i ==> segment_emittable(#[trigger] segs[j])
}

/// The names are those of segments that form a cycle of the dependency
/// graph, which passes no segment twice.
pub open spec fn is_cycle_of_names(segs: Seq<RustSegmentView>, names: Seq<Seq<char>>) -> bool {
    exists|cycle: Seq<usize>|
        deps_graph(segs).is_cycle(cycle) && cycle.no_duplicates() && cycle.len() == names.len()
            && forall|i: int|
            0 <= i < cycle.len() ==> (#[trigger] cycle[i]) < segs.len() && names[i]
                == segs[cycle[i] as int].name()
}

pub open spec fn all_emittable(segs: Seq<RustSegmentView>) -> bool {
    forall|i: int| 0 <= i < segs.len() ==> segment_emittable(#[trigger] segs[i])
}

/// What the passes make of the segments, or why they give up.
pub open spec fn transform_result_is(
    r: Result<(), CompileError>,
    before: Seq<RustSegmentView>,
    lits: LiteralView,
    after: Seq<RustSegmentView>,
) -> bool {
    let ready = flatten_ready(adapted(before, lits));
    let segs = prepared(before, lits);
    match r {
        Ok(()) => ready && unique_names(segs) && !deps_graph(segs).has_cycle() && exists|
            d: Set<Seq<char>>,
        | borrow_solution(segs, after, d),
        Err(CompileError::OptionalFlatten) => !ready,
        Err(CompileError::DuplicateName(name)) => ready && is_duplicate(segs, name@),
        Err(CompileError::CyclicDependency(names)) => ready && unique_names(segs) && is_cycle_of_names(
            segs,
            strings_view(names@),
        ),
        Err(_) => false,
    }
}

/// A cycle of uses ends the compilation: where the prepared segments
/// carry distinct names and use one another in a cycle, the passes fail
/// and report a cycle, which is not empty and holds only segments that lie
/// on it.
pub proof fn lemma_cycle_ends_compilation(
    r: Result<(), CompileError>,
    before: Seq<RustSegmentView>,
    lits: LiteralView,
    after: Seq<RustSegmentView>,
)
    requires
        transform_result_is(r, before, lits, after),
        flatten_ready(adapted(before, lits)),
        unique_names(prepared(before, lits)),
        deps_graph(prepared(before, lits)).has_cycle(),
    ensures
        r matches Err(CompileError::CyclicDependency(names)) && names.len() > 0 && is_cycle_of_names(
            prepared(before, lits),
            strings_view(names@),
        ),
{
    let segs = prepared(before, lits);
    match r {
        Err(CompileError::DuplicateName(name)) => {
            let j = choose|j: int| is_first_repeat(segs, j) && (#[trigger] segs[j]).name() == name@;
            let i = choose|i: int| 0 <= i < j && (#[trigger] segs[i]).name() == segs[j].name();
            assert(segs[i].name() == segs[j].name());
        },
        Err(CompileError::CyclicDependency(names)) => {
            let cycle = choose|cycle: Seq<usize>|
                deps_graph(segs).is_cycle(cycle) && cycle.no_duplicates() && cycle.len()
                    == strings_view(names@).len() && forall|i: int|
                    0 <= i < cycle.len() ==> (#[trigger] cycle[i]) < segs.len() && strings_view(
                        names@,
                    )[i] == segs[cycle[i] as int].name();
            assert(cycle.len() > 0);
        },
        _ => {},
    }
}

/// The passes that run before the propagation of reference-capability
/// mark nothing.
pub proof fn lemma_prepared_unmarked(segs: Seq<RustSegmentView>, lits: LiteralView)
    requires
        unmarked(segs),
    ensures
        unmarked(prepared(segs, lits)),
{
    let mid = adapted(segs, lits);
    assert forall|i: int| 0 <= i < mid.len() implies !(#[trigger] mid[i]).is_borrowed() by {
        assert(!segs[i].is_borrowed());
    }
    let out = prepared(segs, lits);
    assert forall|k: int| 0 <= k < out.len() implies !(#[trigger] out[k]).is_borrowed() by {
        let i = lemma_flattened_from_plain(mid, k);
        assert(!mid[i].is_borrowed());
    }
}

/// In what a module compiles to, reference-capability reaches every
/// transitive user: along every chain of segments in which each mentions
/// the name of the next, if the last is marked reference-capable, so is
/// the first.
pub proof fn lemma_compiled_marking_reaches_users(
    decls: Seq<Decl>,
    after: Seq<RustSegmentView>,
    d: Set<Seq<char>>,
    chain: Seq<int>,
    from: int,
)
    requires
        spec_module(decls) is Ok,
        borrow_solution(
            prepared(spec_module(decls)->Ok_0.segments, spec_module(decls)->Ok_0.lits),
            after,
            d,
        ),
        0 <= from < chain.len(),
        forall|k: int| 0 <= k < chain.len() ==> 0 <= #[trigger] chain[k] < after.len(),
        forall|k: int|
            0 <= k < chain.len() - 1 ==> segment_refs(
                prepared(spec_module(decls)->Ok_0.segments, spec_module(decls)->Ok_0.lits)[#[trigger] chain[k]],
            ).contains(
                prepared(spec_module(decls)->Ok_0.segments, spec_module(decls)->Ok_0.lits)[chain[k
                    + 1]].name(),
            ),
        after[chain[chain.len() - 1]].is_borrowed(),
    ensures
        after[chain[from]].is_borrowed(),
{
    let fs = spec_module(decls)->Ok_0;
    lemma_module_unmarked(decls);
    lemma_prepared_unmarked(fs.segments, fs.lits);
    lemma_borrow_reaches_transitive_users(prepared(fs.segments, fs.lits), after, d, chain, from);
}

/// Infers the tag and normalizes the case of every segment.
pub fn adapt_segments(segments: &mut Vec<RustSegment>, lkm: &LiteralKeyMap)
    requires
        lkm_wf(*lkm),
    ensures
        segments_view(final(segments)@) == adapted(segments_view(old(segments)@), lkm_view(*lkm)),
{
    let ghost lits = lkm_view(*lkm);
    let mut i: usize = 0;
    while i < segments.len()
        invariant
            i <= segments.len(),
            segments.len() == old(segments).len(),
            lkm_wf(*lkm),
            lits == lkm_view(*lkm),
            forall|j: int|
                0 <= j < i ==> (#[trigger] segments@[j])@ == with_rename_all(
                    with_internal_tag(old(segments)@[j]@, lits),
                ),
            forall|j: int| i <= j < segments.len() ==> (#[trigger] segments@[j]) == old(segments)@[j],
        decreases segments.len() - i,
    {
        let _ = adapt_internal_tag(&mut segments[i], lkm);
        let _ = adapt_rename_all(&mut segments[i]);
        i += 1;
    }
    assert(segments_view(segments@) =~= adapted(segments_view(old(segments)@), lits));
}

/// The index of a segment whose name an earlier segment carries too.
pub fn find_duplicate_name(segments: &Vec<RustSegment>) -> (r: Option<usize>)
    ensures
        match r {
            Some(j) => is_first_repeat(segments_view(segments@), j as int),
            None => unique_names(segments_view(segments@)),
        },
{
    let ghost segs = segments_view(segments@);
    let mut j: usize = 0;
    while j < segments.len()
        invariant
            j <= segments.len(),
            segs == segments_view(segments@),
            forall|a: int, b: int| 0 <= a < b < j ==> (#[trigger] segs[a]).name() != (#[trigger] segs[b]).name(),
        decreases segments.len() - j,
    {
        let mut i: usize = 0;
        while i < j
            invariant
                i <= j < segments.len(),
                segs == segments_view(segments@),
                forall|a: int, b: int|
                    0 <= a < b < j ==> (#[trigger] segs[a]).name() != (#[trigger] segs[b]).name(),
                forall|a: int| 0 <= a < i ==> (#[trigger] segs[a]).name() != segs[j as int].name(),
            decreases j - i,
        {
            if crate::text::str_eq(segments[i].name(), segments[j].name()) {
                assert(segs[i as int].name() == segs[j as int].name());
                return Some(j);
            }
            i += 1;
        }
        j += 1;
    }
    assert forall|a: int, b: int| 0 <= a < segs.len() && 0 <= b < segs.len() && a != b implies (
    #[trigger] segs[a]).name() != (#[trigger] segs[b]).name() by {
        if a < b {
        } else {
            assert(segs[b].name() != segs[a].name());
        }
    }
    None
}

/// Runs the passes that refine the segments: tag inference and case
/// normalization, flattening, and the propagation of reference-capability
/// along the dependency graph.
pub fn transform(segments: &mut Vec<RustSegment>, lkm: &LiteralKeyMap) -> (r: Result<(), CompileError>)
    requires
        lkm_wf(*lkm),
    ensures
        transform_result_is(
            r,
            segments_view(old(segments)@),
            lkm_view(*lkm),
            segments_view(final(segments)@),
        ),
{
    adapt_segments(segments, lkm);
    if !can_flatten(segments) {
        return Err(CompileError::OptionalFlatten);
    }
    flatten_type(segments);
    let ghost segs = segments_view(segments@);
    if let Some(j) = find_duplicate_name(segments) {
        let name = segments[j].name().to_owned();
        assert(is_first_repeat(segs, j as int) && segs[j as int].name() == name@);
        return Err(CompileError::DuplicateName(name));
    }
    let deps = type_deps(segments);
    proof {
        assert(segs.len() == segments.len());
        lemma_deps_upto(segs, segs.len() as int);
    }
    match deps.co_topo_sort() {
        Ok(_) => {},
        Err(cycle) => {
            let ghost g = deps.reversed();
            let mut names: Vec<String> = Vec::new();
            let mut i: usize = 0;
            assert(strings_view(names@) =~= Seq::<Seq<char>>::empty());
            while i < cycle.len()
                invariant
                    i <= cycle.len(),
                    segs == segments_view(segments@),
                    g == deps_graph(segs),
                    g.is_cycle(cycle@),
                    cycle@.no_duplicates(),
                    forall|x: usize| #[trigger] g.nodes.contains(x) ==> x < segs.len(),
                    names.len() == i,
                    forall|k: int|
                        0 <= k < i ==> (#[trigger] cycle@[k]) < segs.len() && names@[k]@
                            == segs[cycle@[k] as int].name(),
                decreases cycle.len() - i,
            {
                proof {
                    let next = if i < cycle.len() - 1 {
                        cycle@[i + 1]
                    } else {
                        cycle@[0]
                    };
                    assert(g.has_edge(cycle@[i as int], next));
                    let w = choose|w: int|
                        0 <= w < g.nodes.len() && w < g.succ.len() && #[trigger] g.nodes[w]
                            == cycle@[i as int] && g.succ[w].contains(next);
                    assert(g.nodes.contains(cycle@[i as int]));
                }
                names.push(segments[cycle[i]].name().to_owned());
                i += 1;
            }
            proof {
                assert(is_cycle_of_names(segs, strings_view(names@))) by {
                    let c = cycle@;
                    assert(deps_graph(segs).is_cycle(c) && c.no_duplicates() && c.len()
                        == strings_view(names@).len() && forall|i: int|
                        0 <= i < c.len() ==> (#[trigger] c[i]) < segs.len() && strings_view(names@)[i]
                            == segs[c[i] as int].name());
                }
            }
            return Err(CompileError::CyclicDependency(names));
        },
    }
    adapt_borrow(segments, &deps);
    Ok(())
}

/// The declarations of the segments, one after the other; or the name of
/// a segment that cannot be emitted.
pub fn emit(segments: &Vec<RustSegment>) -> (r: Result<TokenStream, CompileError>)
    ensures
        match r {
            Ok(ts) => all_emittable(segments_view(segments@)) && stream_tokens(ts) == segments_tokens(
                segments_view(segments@),
            ),
            Err(CompileError::InvalidIdentifier(name)) => exists|i: int|
                is_first_unemittable(segments_view(segments@), i) && name@ == (#[trigger] segments_view(
                    segments@,
                )[i]).name(),
            Err(_) => false,
        },
{
    let ghost segs = segments_view(segments@);
    let mut ts = TokenStream::new();
    let mut i: usize = 0;
    assert(segments_tokens(segs.take(0)) =~= Seq::<Token>::empty());
    while i < segments.len()
        invariant
            i <= segments.len(),
            segs == segments_view(segments@),
            forall|j: int| 0 <= j < i ==> segment_emittable(#[trigger] segs[j]),
            stream_tokens(ts) == segments_tokens(segs.take(i as int)),
        decreases segments.len() - i,
    {
        if !is_emittable(&segments[i]) {
            let name = segments[i].name().to_owned();
            assert(is_first_unemittable(segs, i as int) && name@ == segs[i as int].name());
            return Err(CompileError::InvalidIdentifier(name));
        }
        proof {
            assert(segs.take(i + 1).drop_last() =~= segs.take(i as int));
            assert(segs.take(i + 1).last() == segments@[i as int]@);
        }
        emit_segment(&segments[i], &mut ts);
        i += 1;
    }
    assert(segs.take(segments.len() as int) =~= segs);
    Ok(ts)
}

/// Compiles the declarations of a module to the tokens of the Rust
/// declarations that stand for them.
pub fn compile(decls: &Vec<Decl>) -> (r: Result<TokenStream, CompileError>)
    ensures
        match spec_module(decls@) {
            Err(e) => r matches Err(CompileError::Frontend(f)) && f == e,
            Ok(fs) => match r {
                Ok(ts) => exists|after: Seq<RustSegmentView>|
                    transform_result_is(Ok(()), fs.segments, fs.lits, after) && all_emittable(after)
                        && stream_tokens(ts) == segments_tokens(after),
                Err(CompileError::Frontend(_)) => false,
                Err(CompileError::InvalidIdentifier(name)) => exists|after: Seq<RustSegmentView>, i: int|
                    transform_result_is(Ok(()), fs.segments, fs.lits, after) && is_first_unemittable(
                        after,
                        i,
                    ) && name@ == (#[trigger] after[i]).name(),
                Err(e) => exists|after: Seq<RustSegmentView>|
                    transform_result_is(Err(e), fs.segments, fs.lits, after),
            },
        },
{
    let (mut segments, lkm) = match convert_module(decls) {
        Ok(r) => r,
        Err(e) => {
            return Err(CompileError::Frontend(e));
        },
    };
    let ghost fs = spec_module(decls@)->Ok_0;
    match transform(&mut segments, &lkm) {
        Ok(()) => {},
        Err(e) => {
            assert(transform_result_is(Err(e), fs.segments, fs.lits, segments_view(segments@)));
            return Err(e);
        },
    }
    let ghost after = segments_view(segments@);
    assert(transform_result_is(Ok(()), fs.segments, fs.lits, after));
    match emit(&segments) {
        Ok(ts) => Ok(ts),
        Err(e) => {
            proof {
                if e is InvalidIdentifier {
                    let name = e->InvalidIdentifier_0;
                    let i = choose|i: int|
                        is_first_unemittable(after, i) && name@ == (#[trigger] after[i]).name();
                    assert(transform_result_is(Ok(()), fs.segments, fs.lits, after)
                        && is_first_unemittable(after, i) && name@ == after[i].name());
                }
            }
            Err(e)
        },
    }
}

} // verus!
