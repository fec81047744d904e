//! The naming context: the path from a declaration to the anonymous type
//! that is being named.

use vstd::prelude::*;
use crate::case::{detect_case, spec_detect_case};
use crate::lexical::strings_view;
use crate::text::{chars_of, decimal, push_decimal};

verus! {

/// Where in a declaration the conversion stands, and how the next
/// anonymous type there is to be named.
#[derive(Debug, PartialEq, Eq)]
pub struct TypeConvertContext {
    /// The name of the enclosing declaration, then the fields entered.
    pub path: Vec<String>,
    /// A name to use once, in place of one made from the path.
    pub granted_name: Option<String>,
    /// Whether the type stands on the right of a type alias.
    pub from_alias: bool,
    /// How many names were made from this path.
    pub duplicate_counter: usize,
}

pub struct CtxView {
    pub path: Seq<Seq<char>>,
    pub granted_name: Option<Seq<char>>,
    pub from_alias: bool,
    pub duplicate_counter: usize,
}

impl View for TypeConvertContext {
    type V = CtxView;

    open spec fn view(&self) -> CtxView {
        CtxView {
            path: strings_view(self.path@),
            granted_name: match self.granted_name {
                Some(n) => Some(n@),
                None => None,
            },
            from_alias: self.from_alias,
            duplicate_counter: self.duplicate_counter,
        }
    }
}

/// The view of an optional context.
pub open spec fn opt_ctx_view(c: Option<TypeConvertContext>) -> Option<CtxView> {
    match c {
        Some(c) => Some(c@),
        None => None,
    }
}

/// One component of a path in PascalCase.
pub open spec fn pascal_part(p: Seq<char>) -> Seq<char> {
    spec_detect_case(p).spec_rename_rule().spec_to_pascal(p)
}

/// The components of a path, each in PascalCase.
pub open spec fn path_pascal(path: Seq<Seq<char>>) -> Seq<Seq<char>> {
    path.map_values(|p: Seq<char>| pascal_part(p))
}

/// The parts written one after the other.
pub open spec fn concat(parts: Seq<Seq<char>>) -> Seq<char>
    decreases parts.len(),
{
    if parts.len() == 0 {
        Seq::empty()
    } else {
        concat(parts.drop_last()) + parts.last()
    }
}

/// The counter after one more name: it stops at the largest value.
pub open spec fn next_counter(c: usize) -> usize {
    if c < usize::MAX {
        (c + 1) as usize
    } else {
        c
    }
}

impl CtxView {
    /// The context of a path, with nothing granted.
    pub open spec fn of_path(path: Seq<Seq<char>>) -> CtxView {
        CtxView { path, granted_name: None, from_alias: false, duplicate_counter: 0 }
    }

    /// The context one field further down.
    pub open spec fn projected(self, field: Seq<char>) -> CtxView {
        CtxView {
            path: self.path.push(field),
            granted_name: None,
            from_alias: false,
            duplicate_counter: 0,
        }
    }

    /// The numeric suffix of the next name made from the path, if it gets
    /// one: the first name of a path gets none unless the type stands on the
    /// right of an alias.
    pub open spec fn suffix(self) -> Option<Seq<char>> {
        if self.from_alias || self.duplicate_counter != 0 {
            Some(
                decimal(
                    (self.duplicate_counter + if self.from_alias {
                        1int
                    } else {
                        0int
                    }) as nat,
                ),
            )
        } else {
            None
        }
    }

    /// The next name: the granted one, if there is one, which is used up;
    /// else the path in PascalCase followed by the additional parts, or,
    /// without such parts, by the numeric suffix, which then advances.
    pub open spec fn create_ident_with(self, additional: Option<Seq<Seq<char>>>) -> (CtxView, Seq<char>) {
        match self.granted_name {
            Some(name) => (CtxView { granted_name: None, ..self }, name),
            None => match additional {
                Some(add) => (self, concat(path_pascal(self.path) + add)),
                None => (
                    CtxView { duplicate_counter: next_counter(self.duplicate_counter), ..self },
                    concat(
                        match self.suffix() {
                            Some(s) => path_pascal(self.path).push(s),
                            None => path_pascal(self.path),
                        },
                    ),
                ),
            },
        }
    }

    pub open spec fn create_ident(self) -> (CtxView, Seq<char>) {
        self.create_ident_with(None)
    }
}

/// A copy of a list of strings.
pub fn clone_strings(v: &Vec<String>) -> (r: Vec<String>)
    ensures
        strings_view(r@) == strings_view(v@),
{
    let mut out: Vec<String> = Vec::new();
    let mut i: usize = 0;
    while i < v.len()
        invariant
            i <= v.len(),
            strings_view(out@) == strings_view(v@).take(i as int),
        decreases v.len() - i,
    {
        let ghost before = strings_view(out@);
        let item = v[i].clone();
        out.push(item);
        assert(strings_view(out@) =~= before.push(item@));
        assert(strings_view(v@).take(i + 1) =~= strings_view(v@).take(i as int).push(v@[i as int]@));
        i += 1;
    }
    assert(strings_view(v@).take(v.len() as int) =~= strings_view(v@));
    out
}

/// The strings written one after the other.
pub fn concat_strings(parts: &Vec<String>) -> (r: String)
    ensures
        r@ == concat(strings_view(parts@)),
{
    let ghost all = strings_view(parts@);
    let mut out = String::new();
    let mut i: usize = 0;
    while i < parts.len()
        invariant
            i <= parts.len(),
            all == strings_view(parts@),
            out@ == concat(all.take(i as int)),
        decreases parts.len() - i,
    {
        proof {
            assert(all.take(i + 1).drop_last() =~= all.take(i as int));
            assert(all.take(i + 1).last() == parts@[i as int]@);
        }
        let cs = chars_of(parts[i].as_str());
        let ghost before = out@;
        let mut k: usize = 0;
        assert(before + cs@.take(0) =~= before);
        while k < cs.len()
            invariant
                k <= cs.len(),
                out@ == before + cs@.take(k as int),
            decreases cs.len() - k,
        {
            out.push(cs[k]);
            assert(before + cs@.take(k + 1) =~= (before + cs@.take(k as int)).push(cs@[k as int]));
            k += 1;
        }
        assert(cs@.take(cs.len() as int) =~= cs@);
        i += 1;
    }
    assert(all.take(parts.len() as int) =~= all);
    out
}

impl Clone for TypeConvertContext {
    fn clone(&self) -> (r: Self)
        ensures
            r@ == self@,
    {
        TypeConvertContext {
            path: clone_strings(&self.path),
            granted_name: match &self.granted_name {
                Some(n) => Some(n.clone()),
                None => None,
            },
            from_alias: self.from_alias,
            duplicate_counter: self.duplicate_counter,
        }
    }
}

impl TypeConvertContext {
    pub fn from_path(path: Vec<String>) -> (r: Self)
        ensures
            r@ == CtxView::of_path(strings_view(path@)),
    {
        TypeConvertContext { path, granted_name: None, from_alias: false, duplicate_counter: 0 }
    }

    /// Enters a field of a record.
    pub fn projection(&mut self, field: String)
        ensures
            final(self)@ == old(self)@.projected(field@),
    {
        self.path.push(field);
        self.granted_name = None;
        self.from_alias = false;
        self.duplicate_counter = 0;
        assert(strings_view(self.path@) =~= strings_view(old(self).path@).push(field@));
    }

    /// The components of the path, each in PascalCase.
    pub fn to_pascal(&self) -> (r: Vec<String>)
        ensures
            strings_view(r@) == path_pascal(self@.path),
    {
        let ghost target = path_pascal(self@.path);
        let mut out: Vec<String> = Vec::new();
        let mut i: usize = 0;
        while i < self.path.len()
            invariant
                i <= self.path.len(),
                target == path_pascal(self@.path),
                strings_view(out@) == target.take(i as int),
            decreases self.path.len() - i,
        {
            let mut p = self.path[i].clone();
            let rule = detect_case(p.as_str()).into_rename_rule();
            rule.convert_to_pascal(&mut p);
            let ghost before = strings_view(out@);
            let ghost word = p@;
            out.push(p);
            assert(strings_view(out@) =~= before.push(word));
            assert(target.take(i + 1) =~= target.take(i as int).push(target[i as int]));
            assert(target[i as int] == pascal_part(self.path@[i as int]@));
            i += 1;
        }
        assert(target.take(self.path.len() as int) =~= target);
        out
    }

    /// Makes the next name from the path.
    pub fn create_ident(&mut self) -> (r: String)
        ensures
            (final(self)@, r@) == old(self)@.create_ident(),
    {
        self.create_ident_with(None)
    }

    /// Makes the next name: the granted one, or the path followed by the
    /// additional parts or by the numeric suffix.
    pub fn create_ident_with(&mut self, additional: Option<Vec<String>>) -> (r: String)
        ensures
            (final(self)@, r@) == old(self)@.create_ident_with(
                match additional {
                    Some(a) => Some(strings_view(a@)),
                    None => None,
                },
            ),
    {
        if self.granted_name.is_some() {
            let mut taken: Option<String> = None;
            core::mem::swap(&mut taken, &mut self.granted_name);
            return taken.unwrap();
        }
        let mut v = self.to_pascal();
        let ghost base = strings_view(v@);
        match additional {
            Some(mut add) => {
                let ghost extra = strings_view(add@);
                v.append(&mut add);
                assert(strings_view(v@) =~= base + extra);
            },
            None => {
                if self.from_alias || self.duplicate_counter != 0 {
                    let suffix: u128 = self.duplicate_counter as u128 + if self.from_alias {
                        1u128
                    } else {
                        0u128
                    };
                    let mut word = String::new();
                    push_decimal(suffix, &mut word);
                    assert(word@ =~= decimal(suffix as nat));
                    v.push(word);
                    assert(strings_view(v@) =~= base.push(word@));
                }
                if self.duplicate_counter < usize::MAX {
                    self.duplicate_counter += 1;
                }
            },
        }
        concat_strings(&v)
    }
}

} // verus!
