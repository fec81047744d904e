//! Doc comments: from the text of a block comment to one line of prose.

use vstd::prelude::*;
use crate::ir::RustComment;
use crate::text::{char_is_whitespace, chars_of};

verus! {

/// `s` without its leading asterisks.
pub open spec fn skip_stars(s: Seq<char>) -> Seq<char>
    decreases s.len(),
{
    if s.len() > 0 && s[0] == '*' {
        skip_stars(s.drop_first())
    } else {
        s
    }
}

/// `s` without its leading white space.
pub open spec fn trim_start(s: Seq<char>) -> Seq<char>
    decreases s.len(),
{
    if s.len() > 0 && char_is_whitespace(s[0]) {
        trim_start(s.drop_first())
    } else {
        s
    }
}

/// `s` without its trailing white space.
pub open spec fn trim_end(s: Seq<char>) -> Seq<char>
    decreases s.len(),
{
    if s.len() > 0 && char_is_whitespace(s.last()) {
        trim_end(s.drop_last())
    } else {
        s
    }
}

/// `s` without its leading repetitions of an asterisk and a blank.
pub open spec fn skip_star_blank(s: Seq<char>) -> Seq<char>
    decreases s.len(),
{
    if s.len() >= 2 && s[0] == '*' && s[1] == ' ' {
        skip_star_blank(s.skip(2))
    } else {
        s
    }
}

/// The length of the first line of `s`: the number of characters before
/// the first line feed.
pub open spec fn line_end(s: Seq<char>) -> nat
    decreases s.len(),
{
    if s.len() == 0 || s[0] == '\n' {
        0
    } else {
        1 + line_end(s.drop_first())
    }
}

/// A line without its indentation and its leading asterisks.
pub open spec fn clean_line(l: Seq<char>) -> Seq<char> {
    skip_star_blank(trim_start(l))
}

/// The lines of `s`, each cleaned, joined by single blanks.
pub open spec fn join_lines(s: Seq<char>) -> Seq<char>
    decreases s.len(),
{
    let e = line_end(s) as int;
    if e < s.len() {
        clean_line(s.take(e)) + seq![' '] + join_lines(s.skip(e + 1))
    } else {
        clean_line(s)
    }
}

/// The prose of a block comment: the text without the asterisks and the
/// white space that frame it, its lines cleaned and joined by blanks.
pub open spec fn spec_strip_docs(comment: Seq<char>) -> Seq<char> {
    join_lines(trim_end(trim_start(skip_stars(comment))))
}

fn scan_stars(cs: &Vec<char>, from: usize, to: usize) -> (k: usize)
    requires
        from <= to <= cs.len(),
    ensures
        from <= k <= to,
        skip_stars(cs@.subrange(from as int, to as int)) == cs@.subrange(k as int, to as int),
{
    let mut k = from;
    while k < to && cs[k] == '*'
        invariant
            from <= k <= to <= cs.len(),
            skip_stars(cs@.subrange(from as int, to as int)) == skip_stars(
                cs@.subrange(k as int, to as int),
            ),
        decreases to - k,
    {
        assert(cs@.subrange(k as int, to as int).drop_first() =~= cs@.subrange(k + 1, to as int));
        k += 1;
    }
    k
}

fn scan_space(cs: &Vec<char>, from: usize, to: usize) -> (k: usize)
    requires
        from <= to <= cs.len(),
    ensures
        from <= k <= to,
        trim_start(cs@.subrange(from as int, to as int)) == cs@.subrange(k as int, to as int),
{
    let mut k = from;
    while k < to && cs[k].is_whitespace()
        invariant
            from <= k <= to <= cs.len(),
            trim_start(cs@.subrange(from as int, to as int)) == trim_start(
                cs@.subrange(k as int, to as int),
            ),
        decreases to - k,
    {
        assert(cs@.subrange(k as int, to as int).drop_first() =~= cs@.subrange(k + 1, to as int));
        k += 1;
    }
    k
}

fn scan_space_back(cs: &Vec<char>, from: usize, to: usize) -> (k: usize)
    requires
        from <= to <= cs.len(),
    ensures
        from <= k <= to,
        trim_end(cs@.subrange(from as int, to as int)) == cs@.subrange(from as int, k as int),
{
    let mut k = to;
    while k > from && cs[k - 1].is_whitespace()
        invariant
            from <= k <= to <= cs.len(),
            trim_end(cs@.subrange(from as int, to as int)) == trim_end(
                cs@.subrange(from as int, k as int),
            ),
        decreases k - from,
    {
        assert(cs@.subrange(from as int, k as int).drop_last() =~= cs@.subrange(from as int, k - 1));
        k -= 1;
    }
    k
}

fn scan_star_blank(cs: &Vec<char>, from: usize, to: usize) -> (k: usize)
    requires
        from <= to <= cs.len(),
    ensures
        from <= k <= to,
        skip_star_blank(cs@.subrange(from as int, to as int)) == cs@.subrange(k as int, to as int),
{
    let mut k = from;
    while to - k >= 2 && cs[k] == '*' && cs[k + 1] == ' '
        invariant
            from <= k <= to <= cs.len(),
            skip_star_blank(cs@.subrange(from as int, to as int)) == skip_star_blank(
                cs@.subrange(k as int, to as int),
            ),
        decreases to - k,
    {
        assert(cs@.subrange(k as int, to as int).skip(2) =~= cs@.subrange(k + 2, to as int));
        k += 2;
    }
    k
}

fn scan_line(cs: &Vec<char>, from: usize, to: usize) -> (e: usize)
    requires
        from <= to <= cs.len(),
    ensures
        from <= e <= to,
        line_end(cs@.subrange(from as int, to as int)) == e - from,
{
    let mut e = from;
    while e < to && cs[e] != '\n'
        invariant
            from <= e <= to <= cs.len(),
            line_end(cs@.subrange(from as int, to as int)) == (e - from) + line_end(
                cs@.subrange(e as int, to as int),
            ),
        decreases to - e,
    {
        assert(cs@.subrange(e as int, to as int).drop_first() =~= cs@.subrange(e + 1, to as int));
        e += 1;
    }
    e
}

fn push_range(out: &mut String, cs: &Vec<char>, from: usize, to: usize)
    requires
        from <= to <= cs.len(),
    ensures
        final(out)@ == old(out)@ + cs@.subrange(from as int, to as int),
{
    let mut i = from;
    assert(old(out)@ + cs@.subrange(from as int, from as int) =~= old(out)@);
    while i < to
        invariant
            from <= i <= to <= cs.len(),
            out@ == old(out)@ + cs@.subrange(from as int, i as int),
        decreases to - i,
    {
        out.push(cs[i]);
        assert(old(out)@ + cs@.subrange(from as int, i + 1) =~= (old(out)@ + cs@.subrange(
            from as int,
            i as int,
        )).push(cs@[i as int]));
        i += 1;
    }
}

/// Appends the cleaned line `cs[from..to]`.
fn push_clean_line(out: &mut String, cs: &Vec<char>, from: usize, to: usize)
    requires
        from <= to <= cs.len(),
    ensures
        final(out)@ == old(out)@ + clean_line(cs@.subrange(from as int, to as int)),
{
    let a = scan_space(cs, from, to);
    let b = scan_star_blank(cs, a, to);
    push_range(out, cs, b, to);
}

/// Turns the text of a block comment into one line of prose.
pub fn strip_docs(comment: &str) -> (r: RustComment)
    ensures
        r@ == spec_strip_docs(comment@),
{
    let cs = chars_of(comment);
    let n = cs.len();
    assert(cs@.subrange(0, n as int) =~= cs@);
    let a = scan_stars(&cs, 0, n);
    let b = scan_space(&cs, a, n);
    let c = scan_space_back(&cs, b, n);
    let ghost body = cs@.subrange(b as int, c as int);
    let mut out = String::new();
    let mut i = b;
    let mut done = false;
    assert(Seq::<char>::empty() + join_lines(body) =~= join_lines(body));
    while !done
        invariant
            b <= i <= c <= cs.len(),
            body == cs@.subrange(b as int, c as int),
            !done ==> out@ + join_lines(cs@.subrange(i as int, c as int)) == join_lines(body),
            done ==> out@ == join_lines(body),
        decreases c - i + if done { 0int } else { 1int },
    {
        let e = scan_line(&cs, i, c);
        let ghost rest = cs@.subrange(i as int, c as int);
        let ghost before = out@;
        proof {
            assert(rest.take(e - i) =~= cs@.subrange(i as int, e as int));
        }
        push_clean_line(&mut out, &cs, i, e);
        if e < c {
            out.push(' ');
            proof {
                assert(rest.skip(e - i + 1) =~= cs@.subrange(e + 1, c as int));
                let line = clean_line(cs@.subrange(i as int, e as int));
                let tail = join_lines(cs@.subrange(e + 1, c as int));
                assert((before + line).push(' ') + tail =~= before + (line + seq![' '] + tail));
            }
            i = e + 1;
        } else {
            proof {
                assert(cs@.subrange(i as int, e as int) =~= rest);
            }
            i = e;
            done = true;
        }
    }
    RustComment(out)
}

} // verus!
