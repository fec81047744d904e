//! The lexicographic order of strings by code point, and sorting by it.

use vstd::prelude::*;
use vstd::relations::{antisymmetric, reflexive, sorted_by, strongly_connected, total_ordering, transitive};
use vstd::seq_lib::lemma_sorted_unique;
use crate::text::chars_of;

verus! {

/// `a` comes before `b`, or equals it, in the lexicographic order by code
/// point. This is the order in which `str` values compare.
pub open spec fn lex_le(a: Seq<char>, b: Seq<char>) -> bool
    decreases a.len(),
{
    if a.len() == 0 {
        true
    } else if b.len() == 0 {
        false
    } else if a[0] != b[0] {
        a[0] < b[0]
    } else {
        lex_le(a.drop_first(), b.drop_first())
    }
}

/// The order as a relation.
pub open spec fn lex_order() -> spec_fn(Seq<char>, Seq<char>) -> bool {
    |a: Seq<char>, b: Seq<char>| lex_le(a, b)
}

proof fn lemma_lex_refl(a: Seq<char>)
    ensures
        lex_le(a, a),
    decreases a.len(),
{
    if a.len() > 0 {
        lemma_lex_refl(a.drop_first());
    }
}

proof fn lemma_lex_antisym(a: Seq<char>, b: Seq<char>)
    requires
        lex_le(a, b),
        lex_le(b, a),
    ensures
        a == b,
    decreases a.len(),
{
    if a.len() > 0 {
        assert(b.len() > 0);
        assert(a[0] == b[0]);
        let ta = a.drop_first();
        let tb = b.drop_first();
        lemma_lex_antisym(ta, tb);
        assert(a.len() == b.len());
        assert forall|i: int| 0 <= i < a.len() implies a[i] == b[i] by {
            if i > 0 {
                assert(ta[i - 1] == a[i]);
                assert(tb[i - 1] == b[i]);
            }
        }
        assert(a =~= b);
    } else {
        assert(a =~= b);
    }
}

proof fn lemma_lex_trans(a: Seq<char>, b: Seq<char>, c: Seq<char>)
    requires
        lex_le(a, b),
        lex_le(b, c),
    ensures
        lex_le(a, c),
    decreases a.len(),
{
    if a.len() > 0 && a[0] == b[0] && b[0] == c[0] {
        lemma_lex_trans(a.drop_first(), b.drop_first(), c.drop_first());
    }
}

proof fn lemma_lex_total(a: Seq<char>, b: Seq<char>)
    ensures
        lex_le(a, b) || lex_le(b, a),
    decreases a.len(),
{
    if a.len() > 0 && b.len() > 0 && a[0] == b[0] {
        lemma_lex_total(a.drop_first(), b.drop_first());
    }
}

/// The lexicographic order is a total order.
pub proof fn lemma_lex_total_ordering()
    ensures
        total_ordering(lex_order()),
{
    let r = lex_order();
    assert(reflexive(r)) by {
        assert forall|x: Seq<char>| #[trigger] r(x, x) by {
            lemma_lex_refl(x);
        }
    }
    assert(antisymmetric(r)) by {
        assert forall|x: Seq<char>, y: Seq<char>| #[trigger] r(x, y) && #[trigger] r(y, x) implies x == y by {
            lemma_lex_antisym(x, y);
        }
    }
    assert(transitive(r)) by {
        assert forall|x: Seq<char>, y: Seq<char>, z: Seq<char>| #[trigger] r(x, y) && #[trigger] r(y, z) implies r(x, z) by {
            lemma_lex_trans(x, y, z);
        }
    }
    assert(strongly_connected(r)) by {
        assert forall|x: Seq<char>, y: Seq<char>| #[trigger] r(x, y) || #[trigger] r(y, x) by {
            lemma_lex_total(x, y);
        }
    }
}

/// Whether `a` comes before `b`, or equals it.
pub fn str_le(a: &str, b: &str) -> (r: bool)
    ensures
        r == lex_le(a@, b@),
{
    let x = chars_of(a);
    let y = chars_of(b);
    let mut i: usize = 0;
    assert(x@.skip(0) =~= x@);
    assert(y@.skip(0) =~= y@);
    while i < x.len()
        invariant
            i <= x.len(),
            i <= y.len(),
            x@ == a@,
            y@ == b@,
            lex_le(a@, b@) == lex_le(x@.skip(i as int), y@.skip(i as int)),
        decreases x.len() - i,
    {
        proof {
            assert(x@.skip(i as int).drop_first() =~= x@.skip(i + 1));
        }
        if i >= y.len() {
            return false;
        }
        proof {
            assert(y@.skip(i as int).drop_first() =~= y@.skip(i + 1));
        }
        if x[i] != y[i] {
            return x[i] < y[i];
        }
        i += 1;
    }
    true
}

/// The views of a list of strings.
pub open spec fn strings_view(v: Seq<String>) -> Seq<Seq<char>> {
    v.map_values(|s: String| s@)
}

/// The strings in lexicographic order.
pub open spec fn sorted_strings(v: Seq<Seq<char>>) -> Seq<Seq<char>> {
    v.sort_by(lex_order())
}

/// Two lists of the same strings, in whatever order, sort to the same list.
pub proof fn lemma_sorted_permutation(a: Seq<Seq<char>>, b: Seq<Seq<char>>)
    requires
        a.to_multiset() == b.to_multiset(),
    ensures
        sorted_strings(a) == sorted_strings(b),
{
    lemma_lex_total_ordering();
    a.lemma_sort_by_ensures(lex_order());
    b.lemma_sort_by_ensures(lex_order());
    lemma_sorted_unique(a.sort_by(lex_order()), b.sort_by(lex_order()), lex_order());
}

/// Sorts strings into lexicographic order.
pub fn sort_strings(v: Vec<String>) -> (r: Vec<String>)
    ensures
        strings_view(r@) == sorted_strings(strings_view(v@)),
{
    let ghost leq = lex_order();
    let ghost input = strings_view(v@);
    let mut out: Vec<String> = Vec::new();
    proof {
        lemma_lex_total_ordering();
        assert(strings_view(out@) =~= input.take(0));
    }
    for x in it: v
        invariant
            strings_view(it.seq()) == input,
            leq == lex_order(),
            total_ordering(leq),
            sorted_by(strings_view(out@), leq),
            strings_view(out@).to_multiset() == input.take(it.index() as int).to_multiset(),
    {
        let ghost i = it.index() as int;
        let ghost before = strings_view(out@);
        let mut p: usize = 0;
        while p < out.len() && str_le(out[p].as_str(), x.as_str())
            invariant
                p <= out.len(),
                before == strings_view(out@),
                leq == lex_order(),
                forall|j: int| 0 <= j < p ==> leq(#[trigger] before[j], x@),
            decreases out.len() - p,
        {
            p += 1;
        }
        proof {
            assert(input[i] == x@);
            assert(input.take(i + 1) =~= input.take(i).push(x@));
            if p < out.len() {
                assert(!leq(before[p as int], x@));
                assert(leq(x@, before[p as int]));
                assert forall|j: int| p <= j < before.len() implies leq(x@, #[trigger] before[j]) by {
                    if j > p {
                        assert(leq(before[p as int], before[j]));
                    }
                }
            }
        }
        out.insert(p, x);
        proof {
            let after = strings_view(out@);
            assert(after =~= before.insert(p as int, x@));
            vstd::seq_lib::to_multiset_insert(before, p as int, x@);
            vstd::seq_lib::to_multiset_build(input.take(i), x@);
            assert forall|a: int, b: int| 0 <= a < b < after.len() implies #[trigger] leq(
                after[a],
                after[b],
            ) by {
                if a < p && b > p {
                    assert(leq(before[a], before[b - 1]));
                } else if a < p && b < p {
                    assert(leq(before[a], before[b]));
                } else if a > p {
                    assert(leq(before[a - 1], before[b - 1]));
                }
            }
        }
    }
    proof {
        assert(input.take(input.len() as int) =~= input);
        input.lemma_sort_by_ensures(leq);
        lemma_sorted_unique(strings_view(out@), input.sort_by(leq), leq);
    }
    out
}

} // verus!
