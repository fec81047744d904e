//! Letter-case conventions of identifiers and how they combine.

use vstd::prelude::*;
use crate::ir::RenameRule;
use crate::text::{chars_of, is_uppercase_char};

verus! {

/// The letter-case convention that an identifier follows.
#[derive(Debug, Clone, Copy, PartialEq, Eq, Structural)]
pub enum CaseConvention {
    Lower,
    Upper,
    Snake,
    Pascal,
    ScreamingSnake,
}

/// The convention of one name: a name that starts with an upper-case letter
/// is `ScreamingSnake` if it holds an underscore, `Upper` if every character
/// is upper-case, and `Pascal` otherwise; any other name is `Snake` if it
/// holds an underscore and `Lower` if not.
pub open spec fn spec_detect_case(s: Seq<char>) -> CaseConvention {
    if s.len() > 0 && is_uppercase_char(s[0]) {
        if s.contains('_') {
            CaseConvention::ScreamingSnake
        } else if forall|i: int| 0 <= i < s.len() ==> is_uppercase_char(#[trigger] s[i]) {
            CaseConvention::Upper
        } else {
            CaseConvention::Pascal
        }
    } else if s.contains('_') {
        CaseConvention::Snake
    } else {
        CaseConvention::Lower
    }
}

/// Detects the convention of `s`; the input is expected to follow one of the
/// five conventions.
pub fn detect_case(s: &str) -> (r: CaseConvention)
    ensures
        r == spec_detect_case(s@),
{
    let chars = chars_of(s);
    let n = chars.len();
    let mut has_separator = false;
    let mut all_upper = true;
    let mut i: usize = 0;
    while i < n
        invariant
            i <= n,
            n == chars@.len(),
            has_separator <==> chars@.take(i as int).contains('_'),
            all_upper <==> forall|j: int| 0 <= j < i ==> is_uppercase_char(#[trigger] chars@[j]),
        decreases n - i,
    {
        let c = chars[i];
        proof {
            let before = chars@.take(i as int);
            let after = chars@.take(i + 1);
            assert(after =~= before.push(c));
            if before.contains('_') {
                let k = choose|k: int| 0 <= k < before.len() && before[k] == '_';
                assert(after[k] == '_');
            }
            if after.contains('_') && c != '_' {
                let k = choose|k: int| 0 <= k < after.len() && after[k] == '_';
                assert(before[k] == '_');
            }
            if c == '_' {
                assert(after[i as int] == '_');
            }
        }
        if c == '_' {
            has_separator = true;
        }
        if !c.is_uppercase() {
            all_upper = false;
        }
        i += 1;
    }
    assert(chars@.take(n as int) =~= chars@);
    if n > 0 && chars[0].is_uppercase() {
        if has_separator {
            CaseConvention::ScreamingSnake
        } else if all_upper {
            CaseConvention::Upper
        } else {
            CaseConvention::Pascal
        }
    } else if has_separator {
        CaseConvention::Snake
    } else {
        CaseConvention::Lower
    }
}

impl CaseConvention {
    /// Whether a running convention can absorb a newly observed one: equal
    /// conventions always can, and a bare `Lower` or `Upper` is compatible
    /// with its underscore-separated form in either direction.
    pub open spec fn can_cast(self, other: CaseConvention) -> bool {
        self == other || match (self, other) {
            (CaseConvention::Lower, CaseConvention::Snake) => true,
            (CaseConvention::Upper, CaseConvention::ScreamingSnake) => true,
            (CaseConvention::Snake, CaseConvention::Lower) => true,
            (CaseConvention::ScreamingSnake, CaseConvention::Upper) => true,
            _ => false,
        }
    }

    /// The running convention after absorbing `other`: the separated form
    /// wins over the bare one, anything else keeps `self`.
    pub open spec fn cast_result(self, other: CaseConvention) -> CaseConvention {
        match (self, other) {
            (CaseConvention::Lower, CaseConvention::Snake) => other,
            (CaseConvention::Upper, CaseConvention::ScreamingSnake) => other,
            _ => self,
        }
    }

    /// Folds a newly observed convention into the running one. Returns `None`
    /// and leaves `self` unchanged when the two cannot be unified.
    pub fn cast(&mut self, other: CaseConvention) -> (r: Option<()>)
        ensures
            r.is_some() <==> old(self).can_cast(other),
            r.is_some() ==> *final(self) == old(self).cast_result(other),
            r.is_none() ==> *final(self) == *old(self),
    {
        if *self == other {
            return Some(());
        }
        match (*self, other) {
            (CaseConvention::Lower, CaseConvention::Snake) => {
                *self = other;
                Some(())
            },
            (CaseConvention::Upper, CaseConvention::ScreamingSnake) => {
                *self = other;
                Some(())
            },
            (CaseConvention::Snake, CaseConvention::Lower) => Some(()),
            (CaseConvention::ScreamingSnake, CaseConvention::Upper) => Some(()),
            _ => None,
        }
    }

    /// The container-level rename rule that reproduces this convention.
    pub open spec fn spec_rename_rule(self) -> RenameRule {
        match self {
            CaseConvention::Lower | CaseConvention::Snake => RenameRule::SnakeCase,
            CaseConvention::Pascal => RenameRule::PascalCase,
            CaseConvention::Upper | CaseConvention::ScreamingSnake => RenameRule::ScreamingSnakeCase,
        }
    }

    pub fn into_rename_rule(self) -> (r: RenameRule)
        ensures
            r == self.spec_rename_rule(),
    {
        match self {
            CaseConvention::Lower | CaseConvention::Snake => RenameRule::SnakeCase,
            CaseConvention::Pascal => RenameRule::PascalCase,
            CaseConvention::Upper | CaseConvention::ScreamingSnake => RenameRule::ScreamingSnakeCase,
        }
    }
}

} // verus!
