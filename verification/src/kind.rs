//! The role a dependency plays, and the integer code under which storage keeps it.

use vstd::prelude::*;

verus! {

/// The role of a dependency: needed at run time, only to build, or only to
/// develop and test.
#[derive(Copy, Clone, Debug, PartialEq, Eq, Structural)]
pub enum Kind {
    Normal,
    Build,
    Dev,
}

impl Kind {
    /// The code that stands for this kind in a stored row.
    pub open spec fn spec_code(self) -> i32 {
        match self {
            Kind::Normal => 0i32,
            Kind::Build => 1i32,
            Kind::Dev => 2i32,
        }
    }

    /// The kind a stored code stands for; `None` for a code that stands for no kind.
    pub open spec fn spec_from_code(code: i32) -> Option<Kind> {
        if code == 0 {
            Some(Kind::Normal)
        } else if code == 1 {
            Some(Kind::Build)
        } else if code == 2 {
            Some(Kind::Dev)
        } else {
            None
        }
    }

    /// The kind of a declaration that may leave it out: `Normal` unless stated.
    pub open spec fn spec_or_default(kind: Option<Kind>) -> Kind {
        match kind {
            Some(k) => k,
            None => Kind::Normal,
        }
    }

    #[verifier::when_used_as_spec(spec_code)]
    pub fn code(self) -> (c: i32)
        ensures
            c == self.spec_code(),
    {
        match self {
            Kind::Normal => 0,
            Kind::Build => 1,
            Kind::Dev => 2,
        }
    }

    #[verifier::when_used_as_spec(spec_from_code)]
    pub fn from_code(code: i32) -> (k: Option<Kind>)
        ensures
            k == Kind::spec_from_code(code),
    {
        match code {
            0 => Some(Kind::Normal),
            1 => Some(Kind::Build),
            2 => Some(Kind::Dev),
            _ => None,
        }
    }

    #[verifier::when_used_as_spec(spec_or_default)]
    pub fn or_default(kind: Option<Kind>) -> (k: Kind)
        ensures
            k == Kind::spec_or_default(kind),
    {
        match kind {
            Some(k) => k,
            None => Kind::Normal,
        }
    }

    /// Reading back the code of a kind gives that kind, and the code of the
    /// kind read from a code is that code: the two mappings are inverse on the
    /// three kinds and their three codes, and no other code is read.
    pub proof fn lemma_code_round_trip(kind: Kind, code: i32)
        ensures
            Kind::spec_from_code(kind.spec_code()) == Some(kind),
            Kind::spec_from_code(code) matches Some(k) ==> k.spec_code() == code,
            Kind::spec_from_code(code) is Some <==> 0 <= code <= 2,
    {
    }
}

} // verus!
