//! A dependency as a client declares it when publishing a version.

use crate::kind::Kind;
use vstd::prelude::*;

verus! {

/// One declared dependency, not yet checked against anything.
#[derive(Clone, Debug, PartialEq, Eq)]
pub struct CrateDependency {
    pub optional: bool,
    pub default_features: bool,
    pub name: String,
    pub features: Vec<String>,
    pub version_req: String,
    pub target: Option<String>,
    pub kind: Option<Kind>,
}

/// A declaration as contracts speak of it.
pub struct CrateDependencyView {
    pub optional: bool,
    pub default_features: bool,
    pub name: Seq<char>,
    pub features: Seq<Seq<char>>,
    pub version_req: Seq<char>,
    pub target: Option<Seq<char>>,
    pub kind: Option<Kind>,
}

impl View for CrateDependency {
    type V = CrateDependencyView;

    open spec fn view(&self) -> CrateDependencyView {
        CrateDependencyView {
            optional: self.optional,
            default_features: self.default_features,
            name: self.name@,
            features: self.features.deep_view(),
            version_req: self.version_req@,
            target: self.target.deep_view(),
            kind: self.kind,
        }
    }
}

/// The views of a batch of declarations, in order.
pub open spec fn declarations_view(deps: Seq<CrateDependency>) -> Seq<CrateDependencyView> {
    deps.map_values(|d: CrateDependency| d@)
}

} // verus!
