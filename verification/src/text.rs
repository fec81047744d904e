//! Character and string helpers shared by the naming passes.

use vstd::prelude::*;

verus! {

/// Whether a character carries the Unicode `Uppercase` property.
pub uninterp spec fn char_is_uppercase(c: char) -> bool;

/// Whether a character is upper-case: among the ASCII characters these are
/// the letters `A..=Z`; beyond ASCII it is the Unicode `Uppercase`
/// property.
pub open spec fn is_uppercase_char(c: char) -> bool {
    if c <= '\x7f' {
        'A' <= c && c <= 'Z'
    } else {
        char_is_uppercase(c)
    }
}

/// `char::is_uppercase` decides the Unicode `Uppercase` property. The
/// contract gives that decision a name, and says of it what the Unicode
/// character database says of the ASCII range: there the upper-case
/// characters are exactly `A..=Z`. Of the characters beyond ASCII it
/// claims nothing but the name.
pub assume_specification[ char::is_uppercase ](c: char) -> (r: bool)
    ensures
        r == char_is_uppercase(c),
        r == is_uppercase_char(c),
;

/// The ASCII lower-case form of a character: `A..=Z` shift to `a..=z`,
/// everything else stays.
pub open spec fn ascii_lower(c: char) -> char {
    if 'A' <= c && c <= 'Z' {
        ((c as u32) + 32) as char
    } else {
        c
    }
}

/// The ASCII upper-case form of a character: `a..=z` shift to `A..=Z`,
/// everything else stays.
pub open spec fn ascii_upper(c: char) -> char {
    if 'a' <= c && c <= 'z' {
        ((c as u32) - 32) as char
    } else {
        c
    }
}

/// `char::to_ascii_lowercase` maps `A..=Z` to `a..=z` and leaves every other
/// character unchanged.
pub assume_specification[ char::to_ascii_lowercase ](c: &char) -> (r: char)
    ensures
        r == ascii_lower(*c),
;

/// `char::to_ascii_uppercase` maps `a..=z` to `A..=Z` and leaves every other
/// character unchanged.
pub assume_specification[ char::to_ascii_uppercase ](c: &char) -> (r: char)
    ensures
        r == ascii_upper(*c),
;

/// `String::push` appends the character to the end of the string.
pub assume_specification[ std::string::String::push ](s: &mut String, c: char)
    ensures
        final(s)@ == old(s)@.push(c),
;

/// Whether two string slices have the same characters.
pub fn str_eq(a: &str, b: &str) -> (r: bool)
    ensures
        r == (a@ == b@),
{
    let x = chars_of(a);
    let y = chars_of(b);
    if x.len() != y.len() {
        return false;
    }
    let mut i: usize = 0;
    while i < x.len()
        invariant
            i <= x.len(),
            x.len() == y.len(),
            x@ == a@,
            y@ == b@,
            forall|j: int| 0 <= j < i ==> x@[j] == y@[j],
        decreases x.len() - i,
    {
        if x[i] != y[i] {
            return false;
        }
        i += 1;
    }
    assert(x@ =~= y@);
    true
}

/// The characters of a string slice, in order.
pub fn chars_of(s: &str) -> (r: Vec<char>)
    ensures
        r@ == s@,
{
    let mut out: Vec<char> = Vec::new();
    for c in it: s.chars()
        invariant
            out@ == it.seq().take(it.index() as int),
            it.seq() == s@,
    {
        out.push(c);
    }
    out
}

/// Whether a character has the Unicode `White_Space` property.
pub uninterp spec fn char_is_whitespace(c: char) -> bool;

/// `char::is_whitespace` decides the Unicode `White_Space` property. The
/// contract gives that decision a name and claims nothing else of it.
pub assume_specification[ char::is_whitespace ](c: char) -> (r: bool)
    ensures
        r == char_is_whitespace(c),
;

/// The decimal digit `d`.
pub open spec fn digit_char(d: nat) -> char {
    if d == 0 {
        '0'
    } else if d == 1 {
        '1'
    } else if d == 2 {
        '2'
    } else if d == 3 {
        '3'
    } else if d == 4 {
        '4'
    } else if d == 5 {
        '5'
    } else if d == 6 {
        '6'
    } else if d == 7 {
        '7'
    } else if d == 8 {
        '8'
    } else {
        '9'
    }
}

/// The decimal numeral of `n`, without leading zeros.
pub open spec fn decimal(n: nat) -> Seq<char>
    decreases n,
{
    if n < 10 {
        seq![digit_char(n)]
    } else {
        decimal(n / 10).push(digit_char(n % 10))
    }
}

fn digit_of(d: u128) -> (c: char)
    requires
        d < 10,
    ensures
        c == digit_char(d as nat),
{
    if d == 0 {
        '0'
    } else if d == 1 {
        '1'
    } else if d == 2 {
        '2'
    } else if d == 3 {
        '3'
    } else if d == 4 {
        '4'
    } else if d == 5 {
        '5'
    } else if d == 6 {
        '6'
    } else if d == 7 {
        '7'
    } else if d == 8 {
        '8'
    } else {
        '9'
    }
}

/// Appends the decimal numeral of `n`.
pub fn push_decimal(n: u128, out: &mut String)
    ensures
        final(out)@ == old(out)@ + decimal(n as nat),
    decreases n,
{
    if n >= 10 {
        push_decimal(n / 10, out);
    }
    out.push(digit_of(n % 10));
    proof {
        if n >= 10 {
            assert(old(out)@ + decimal((n / 10) as nat).push(digit_char((n % 10) as nat)) =~= (old(
                out,
            )@ + decimal((n / 10) as nat)).push(digit_char((n % 10) as nat)));
        } else {
            assert(old(out)@.push(digit_char(n as nat)) =~= old(out)@ + seq![digit_char(n as nat)]);
        }
    }
}

pub open spec fn is_separator(c: char) -> bool {
    c == '-' || c == ' ' || c == '_'
}

pub open spec fn is_ascii_alnum(c: char) -> bool {
    ('a' <= c && c <= 'z') || ('A' <= c && c <= 'Z') || ('0' <= c && c <= '9')
}

/// The identifier made of the rest of a literal: the literal is cut at
/// hyphens, blanks and underscores; of each term only the ASCII letters and
/// digits count, lower-cased; a term starts with a capital letter, or with
/// `N` if its first character is a digit. `at_start` says whether no
/// character of the current term has counted yet.
pub open spec fn valid_ident_from(s: Seq<char>, at_start: bool) -> Seq<char>
    decreases s.len(),
{
    if s.len() == 0 {
        Seq::empty()
    } else if is_separator(s[0]) {
        valid_ident_from(s.drop_first(), true)
    } else if !is_ascii_alnum(s[0]) {
        valid_ident_from(s.drop_first(), at_start)
    } else if !at_start {
        seq![ascii_lower(s[0])] + valid_ident_from(s.drop_first(), false)
    } else if '0' <= s[0] && s[0] <= '9' {
        seq!['N', s[0]] + valid_ident_from(s.drop_first(), false)
    } else {
        seq![ascii_upper(ascii_lower(s[0]))] + valid_ident_from(s.drop_first(), false)
    }
}

/// The identifier that stands for a string literal.
pub open spec fn valid_ident_of(s: Seq<char>) -> Seq<char> {
    valid_ident_from(s, true)
}

/// Turns a string literal into an identifier in PascalCase.
pub fn rename_to_valid_ident(s: &str) -> (r: String)
    ensures
        r@ == valid_ident_of(s@),
{
    let chars = chars_of(s);
    let n = chars.len();
    let mut out = String::new();
    let mut at_start = true;
    let mut i: usize = 0;
    proof {
        assert(chars@.subrange(0, n as int) =~= chars@);
        assert(Seq::<char>::empty() + valid_ident_of(chars@) =~= valid_ident_of(chars@));
    }
    while i < n
        invariant
            i <= n,
            n == chars@.len(),
            out@ + valid_ident_from(chars@.subrange(i as int, n as int), at_start) == valid_ident_of(
                chars@,
            ),
        decreases n - i,
    {
        let c = chars[i];
        proof {
            let rest = chars@.subrange(i as int, n as int);
            assert(rest[0] == c);
            assert(rest.drop_first() =~= chars@.subrange(i + 1, n as int));
        }
        let ghost before = out@;
        let ghost tail = valid_ident_from(chars@.subrange(i + 1, n as int), false);
        if c == '-' || c == ' ' || c == '_' {
            at_start = true;
        } else if ('a' <= c && c <= 'z') || ('A' <= c && c <= 'Z') || ('0' <= c && c <= '9') {
            if !at_start {
                out.push(c.to_ascii_lowercase());
                proof {
                    assert(before.push(ascii_lower(c)) + tail =~= before + (seq![ascii_lower(c)] + tail));
                }
            } else if '0' <= c && c <= '9' {
                out.push('N');
                out.push(c);
                proof {
                    assert(before.push('N').push(c) + tail =~= before + (seq!['N', c] + tail));
                }
            } else {
                out.push(c.to_ascii_lowercase().to_ascii_uppercase());
                proof {
                    assert(before.push(ascii_upper(ascii_lower(c))) + tail =~= before + (seq![
                        ascii_upper(ascii_lower(c)),
                    ] + tail));
                }
            }
            at_start = false;
        }
        i += 1;
    }
    proof {
        assert(chars@.subrange(n as int, n as int) =~= Seq::<char>::empty());
        assert(out@ + Seq::<char>::empty() =~= out@);
    }
    out
}

/// The PascalCase form of the rest of a name whose terms are separated by
/// underscores: every term is lower-cased and its first character
/// upper-cased, and the terms are joined without the separators.
/// `at_start` says whether `s` begins a term.
pub open spec fn pascal_from(s: Seq<char>, at_start: bool) -> Seq<char>
    decreases s.len(),
{
    if s.len() == 0 {
        Seq::empty()
    } else if s[0] == '_' {
        pascal_from(s.drop_first(), true)
    } else if at_start {
        seq![ascii_upper(ascii_lower(s[0]))] + pascal_from(s.drop_first(), false)
    } else {
        seq![ascii_lower(s[0])] + pascal_from(s.drop_first(), false)
    }
}

/// The PascalCase form of an underscore-separated name.
pub open spec fn pascal_of(s: Seq<char>) -> Seq<char> {
    pascal_from(s, true)
}

/// Converts an underscore-separated name to PascalCase.
pub fn to_pascal(s: &str) -> (r: String)
    ensures
        r@ == pascal_of(s@),
{
    let chars = chars_of(s);
    let n = chars.len();
    let mut out = String::new();
    let mut at_start = true;
    let mut i: usize = 0;
    proof {
        assert(chars@.subrange(0, n as int) =~= chars@);
        assert(Seq::<char>::empty() + pascal_of(chars@) =~= pascal_of(chars@));
    }
    while i < n
        invariant
            i <= n,
            n == chars@.len(),
            out@ + pascal_from(chars@.subrange(i as int, n as int), at_start) == pascal_of(chars@),
        decreases n - i,
    {
        let c = chars[i];
        proof {
            let rest = chars@.subrange(i as int, n as int);
            assert(rest[0] == c);
            assert(rest.drop_first() =~= chars@.subrange(i + 1, n as int));
        }
        let ghost before = out@;
        if c == '_' {
            at_start = true;
        } else {
            let lower = c.to_ascii_lowercase();
            if at_start {
                out.push(lower.to_ascii_uppercase());
            } else {
                out.push(lower);
            }
            at_start = false;
            proof {
                let tail = pascal_from(chars@.subrange(i + 1, n as int), false);
                assert(before.push(out@.last()) + tail =~= before + (seq![out@.last()] + tail));
            }
        }
        i += 1;
    }
    proof {
        assert(chars@.subrange(n as int, n as int) =~= Seq::<char>::empty());
        assert(out@ + Seq::<char>::empty() =~= out@);
    }
    out
}

/// The snake_case form of the rest of a PascalCase name: every upper-case
/// character but the first of the name is preceded by an underscore, and
/// every character is lower-cased. `at_start` says whether `s` begins the
/// name.
pub open spec fn snake_from(s: Seq<char>, at_start: bool) -> Seq<char>
    decreases s.len(),
{
    if s.len() == 0 {
        Seq::empty()
    } else if !at_start && is_uppercase_char(s[0]) {
        seq!['_', ascii_lower(s[0])] + snake_from(s.drop_first(), false)
    } else {
        seq![ascii_lower(s[0])] + snake_from(s.drop_first(), false)
    }
}

/// The snake_case form of a PascalCase name.
pub open spec fn snake_of(s: Seq<char>) -> Seq<char> {
    snake_from(s, true)
}

proof fn lemma_pascal_of_snake_rest(s: Seq<char>)
    requires
        !s.contains('_'),
    ensures
        pascal_from(snake_from(s, false), false) == s,
    decreases s.len(),
{
    if s.len() > 0 {
        let c = s[0];
        let rest = s.drop_first();
        assert(c != '_') by {
            if c == '_' {
                assert(s[0] == '_');
            }
        }
        assert(!rest.contains('_')) by {
            if rest.contains('_') {
                let k = choose|k: int| 0 <= k < rest.len() && rest[k] == '_';
                assert(s[k + 1] == '_');
            }
        }
        lemma_pascal_of_snake_rest(rest);
        let tail = snake_from(rest, false);
        if is_uppercase_char(c) {
            let l = ascii_lower(c);
            assert(ascii_upper(l) == c);
            let out = seq!['_', l] + tail;
            let after = out.drop_first();
            assert(after =~= seq![l] + tail);
            assert(after[0] == l);
            assert(after.drop_first() =~= tail);
            assert(pascal_from(out, false) == pascal_from(after, true));
            assert(pascal_from(after, true) == seq![c] + pascal_from(tail, false));
            assert(seq![c] + rest =~= s);
        } else {
            assert(ascii_lower(c) == c);
            let out = seq![c] + tail;
            assert(out[0] == c);
            assert(out.drop_first() =~= tail);
            assert(pascal_from(out, false) == seq![c] + pascal_from(tail, false));
            assert(seq![c] + rest =~= s);
        }
    }
}

/// A PascalCase name survives the way to snake_case and back: where a name
/// holds no underscore and does not start with a lower-case ASCII letter,
/// the PascalCase form of its snake_case form is the name.
pub proof fn lemma_pascal_of_snake(s: Seq<char>)
    requires
        !s.contains('_'),
        s.len() > 0 ==> !('a' <= s[0] && s[0] <= 'z'),
    ensures
        pascal_of(snake_of(s)) == s,
{
    if s.len() > 0 {
        let c = s[0];
        let rest = s.drop_first();
        assert(c != '_') by {
            if c == '_' {
                assert(s[0] == '_');
            }
        }
        assert(!rest.contains('_')) by {
            if rest.contains('_') {
                let k = choose|k: int| 0 <= k < rest.len() && rest[k] == '_';
                assert(s[k + 1] == '_');
            }
        }
        lemma_pascal_of_snake_rest(rest);
        let tail = snake_from(rest, false);
        let l = ascii_lower(c);
        assert(l != '_');
        assert(ascii_upper(l) == c);
        let out = seq![l] + tail;
        assert(out[0] == l);
        assert(out.drop_first() =~= tail);
        assert(pascal_from(out, true) == seq![c] + pascal_from(tail, false));
        assert(seq![c] + rest =~= s);
    } else {
        assert(snake_of(s) =~= Seq::<char>::empty());
    }
}

/// Converts a PascalCase name to snake_case.
pub fn to_snake(s: &str) -> (r: String)
    ensures
        r@ == snake_of(s@),
{
    let chars = chars_of(s);
    let n = chars.len();
    let mut out = String::new();
    let mut i: usize = 0;
    proof {
        assert(chars@.subrange(0, n as int) =~= chars@);
        assert(Seq::<char>::empty() + snake_of(chars@) =~= snake_of(chars@));
    }
    while i < n
        invariant
            i <= n,
            n == chars@.len(),
            out@ + snake_from(chars@.subrange(i as int, n as int), i == 0) == snake_of(chars@),
        decreases n - i,
    {
        let c = chars[i];
        proof {
            let rest = chars@.subrange(i as int, n as int);
            assert(rest[0] == c);
            assert(rest.drop_first() =~= chars@.subrange(i + 1, n as int));
            if i == 0 {
                assert(rest =~= chars@);
            }
        }
        let ghost before = out@;
        let ghost tail = snake_from(chars@.subrange(i + 1, n as int), false);
        if i > 0 && c.is_uppercase() {
            out.push('_');
            out.push(c.to_ascii_lowercase());
            proof {
                assert(before.push('_').push(ascii_lower(c)) + tail =~= before + (seq![
                    '_',
                    ascii_lower(c),
                ] + tail));
            }
        } else {
            out.push(c.to_ascii_lowercase());
            proof {
                assert(before.push(ascii_lower(c)) + tail =~= before + (seq![ascii_lower(c)] + tail));
            }
        }
        i += 1;
    }
    proof {
        assert(chars@.subrange(n as int, n as int) =~= Seq::<char>::empty());
        assert(out@ + Seq::<char>::empty() =~= out@);
    }
    out
}

} // verus!
