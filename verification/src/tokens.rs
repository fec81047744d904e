//! Token streams of `proc_macro2`, as far as the emitter needs them.
//!
//! A stream is an opaque value of the outside crate. What it holds is given
//! a name, `stream_tokens`, and each function below says how it changes
//! what the stream holds. None of this is proved: it restates what the
//! source of `proc_macro2` shows.

use vstd::prelude::*;

verus! {

/// The delimiter of a group of tokens.
#[derive(Debug, Clone, Copy, PartialEq, Eq, Structural)]
pub enum Delim {
    Parenthesis,
    Brace,
    Bracket,
}

/// One token tree: an identifier, a punctuation character (with whether it
/// is joined to the next token), a string literal given by its value, or a
/// delimited group.
pub enum Token {
    Ident(Seq<char>),
    Punct(char, bool),
    Str(Seq<char>),
    Group(Delim, Seq<Token>),
}

/// `proc_macro2::TokenStream`, as an opaque value.
#[verifier::external_type_specification]
#[verifier::external_body]
pub struct ExTokenStream(proc_macro2::TokenStream);

/// The token trees that a stream of `proc_macro2` holds, in order. A
/// string literal stands by its value, not by its escaped text.
pub uninterp spec fn stream_tokens(ts: proc_macro2::TokenStream) -> Seq<Token>;

pub open spec fn is_ascii_letter(c: char) -> bool {
    ('a' <= c && c <= 'z') || ('A' <= c && c <= 'Z')
}

pub open spec fn is_ascii_digit(c: char) -> bool {
    '0' <= c && c <= '9'
}

/// A word that `proc_macro2` accepts as an identifier: an ASCII letter or
/// an underscore, followed by ASCII letters, digits and underscores. (The
/// outside crate accepts more, namely every Unicode identifier.)
pub open spec fn is_ident(s: Seq<char>) -> bool {
    &&& s.len() > 0
    &&& is_ascii_letter(s[0]) || s[0] == '_'
    &&& forall|i: int| 0 < i < s.len() ==> is_ascii_letter(#[trigger] s[i]) || is_ascii_digit(s[i]) || s[i] == '_'
}

/// The punctuation characters that `proc_macro2` accepts.
pub open spec fn is_punct(c: char) -> bool {
    c == '!' || c == '#' || c == '$' || c == '%' || c == '&' || c == '\'' || c == '*' || c == '+'
        || c == ',' || c == '-' || c == '.' || c == '/' || c == ':' || c == ';' || c == '<' || c
        == '=' || c == '>' || c == '?' || c == '@' || c == '^' || c == '|' || c == '~'
}

/// `TokenStream::new` returns a stream that holds nothing.
pub assume_specification[ proc_macro2::TokenStream::new ]() -> (ts: proc_macro2::TokenStream)
    ensures
        stream_tokens(ts) == Seq::<Token>::empty(),
;

/// Appends the identifier `name`: `Ident::new` with the call-site span,
/// then `Extend::extend`. `Ident::new` panics on a word that is no
/// identifier, which `requires` leaves out.
#[verifier::external_body]
pub(crate) fn push_ident(ts: &mut proc_macro2::TokenStream, name: &str)
    requires
        is_ident(name@),
    ensures
        stream_tokens(*final(ts)) == stream_tokens(*old(ts)).push(Token::Ident(name@)),
{
    let ident = proc_macro2::Ident::new(name, proc_macro2::Span::call_site());
    ts.extend([proc_macro2::TokenTree::Ident(ident)]);
}

/// Appends the punctuation character `ch`: `Punct::new`, then
/// `Extend::extend`. `Punct::new` panics on a character outside its list,
/// which `requires` leaves out.
#[verifier::external_body]
pub(crate) fn push_punct(ts: &mut proc_macro2::TokenStream, ch: char, joint: bool)
    requires
        is_punct(ch),
    ensures
        stream_tokens(*final(ts)) == stream_tokens(*old(ts)).push(Token::Punct(ch, joint)),
{
    let spacing = if joint {
        proc_macro2::Spacing::Joint
    } else {
        proc_macro2::Spacing::Alone
    };
    ts.extend([proc_macro2::TokenTree::Punct(proc_macro2::Punct::new(ch, spacing))]);
}

/// Appends a string literal with the value `value`: `Literal::string`,
/// then `Extend::extend`.
#[verifier::external_body]
pub(crate) fn push_string(ts: &mut proc_macro2::TokenStream, value: &str)
    ensures
        stream_tokens(*final(ts)) == stream_tokens(*old(ts)).push(Token::Str(value@)),
{
    ts.extend([proc_macro2::TokenTree::Literal(proc_macro2::Literal::string(value))]);
}

/// Appends a group that holds what `inner` holds: `Group::new`, then
/// `Extend::extend`.
#[verifier::external_body]
pub(crate) fn push_group(ts: &mut proc_macro2::TokenStream, delim: Delim, inner: proc_macro2::TokenStream)
    ensures
        stream_tokens(*final(ts)) == stream_tokens(*old(ts)).push(
            Token::Group(delim, stream_tokens(inner)),
        ),
{
    let delimiter = match delim {
        Delim::Parenthesis => proc_macro2::Delimiter::Parenthesis,
        Delim::Brace => proc_macro2::Delimiter::Brace,
        Delim::Bracket => proc_macro2::Delimiter::Bracket,
    };
    ts.extend([proc_macro2::TokenTree::Group(proc_macro2::Group::new(delimiter, inner))]);
}

/// Whether `s` is a word that can be emitted as an identifier.
pub fn is_ident_str(s: &str) -> (r: bool)
    ensures
        r == is_ident(s@),
{
    let chars = crate::text::chars_of(s);
    if chars.len() == 0 {
        return false;
    }
    let first = chars[0];
    if !(('a' <= first && first <= 'z') || ('A' <= first && first <= 'Z') || first == '_') {
        return false;
    }
    let mut i: usize = 1;
    while i < chars.len()
        invariant
            1 <= i <= chars.len(),
            chars@ == s@,
            is_ascii_letter(chars@[0]) || chars@[0] == '_',
            forall|j: int| 0 < j < i ==> is_ascii_letter(#[trigger] chars@[j]) || is_ascii_digit(chars@[j]) || chars@[j] == '_',
        decreases chars.len() - i,
    {
        let c = chars[i];
        if !(('a' <= c && c <= 'z') || ('A' <= c && c <= 'Z') || ('0' <= c && c <= '9') || c == '_') {
            assert(!(is_ascii_letter(chars@[i as int]) || is_ascii_digit(chars@[i as int])
                || chars@[i as int] == '_'));
            return false;
        }
        i += 1;
    }
    true
}

} // verus!
