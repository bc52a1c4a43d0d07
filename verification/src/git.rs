//! A dependency as the version-control index lists it.

use crate::kind::Kind;
use vstd::prelude::*;

verus! {

/// One dependency line of an index entry. The target is given by name, and
/// the kind is always stated.
#[derive(Clone, Debug, PartialEq, Eq)]
pub struct Dependency {
    pub name: String,
    pub req: String,
    pub features: Vec<String>,
    pub optional: bool,
    pub default_features: bool,
    pub target: Option<String>,
    pub kind: Option<Kind>,
}

/// An index line as contracts speak of it.
pub struct DependencyView {
    pub name: Seq<char>,
    pub req: Seq<char>,
    pub features: Seq<Seq<char>>,
    pub optional: bool,
    pub default_features: bool,
    pub target: Option<Seq<char>>,
    pub kind: Option<Kind>,
}

impl View for Dependency {
    type V = DependencyView;

    open spec fn view(&self) -> DependencyView {
        DependencyView {
            name: self.name@,
            req: self.req@,
            features: self.features.deep_view(),
            optional: self.optional,
            default_features: self.default_features,
            target: self.target.deep_view(),
            kind: self.kind,
        }
    }
}

} // verus!
