//! Packages as the registry's table knows them, and the lookup of one by name.

use vstd::prelude::*;

verus! {

/// A package of the registry: its identifier and the name it is stored under.
#[derive(Clone, Debug, PartialEq, Eq)]
pub struct Crate {
    pub id: i32,
    pub name: String,
}

/// A package as contracts speak of it.
pub struct CrateView {
    pub id: i32,
    pub name: Seq<char>,
}

impl View for Crate {
    type V = CrateView;

    open spec fn view(&self) -> CrateView {
        CrateView { id: self.id, name: self.name@ }
    }
}

/// The views of a list of packages, in order.
pub open spec fn crates_view(crates: Seq<Crate>) -> Seq<CrateView> {
    crates.map_values(|c: Crate| c@)
}

/// Holds where `i` is the place of the first package stored under exactly `name`.
pub open spec fn is_first_named(crates: Seq<CrateView>, name: Seq<char>, i: int) -> bool {
    &&& 0 <= i < crates.len()
    &&& crates[i].name == name
    &&& forall|j: int| 0 <= j < i ==> (#[trigger] crates[j]).name != name
}

/// The identifier of the first package stored under exactly `name`, if there is one.
/// Names are compared character by character: no case folding, and `-` is not `_`.
pub open spec fn resolve(crates: Seq<CrateView>, name: Seq<char>) -> Option<i32> {
    if exists|i: int| is_first_named(crates, name, i) {
        Some(crates[choose|i: int| is_first_named(crates, name, i)].id)
    } else {
        None
    }
}

/// At most one place is the first under a name.
pub proof fn lemma_first_named_unique(crates: Seq<CrateView>, name: Seq<char>, i: int, k: int)
    requires
        is_first_named(crates, name, i),
        is_first_named(crates, name, k),
    ensures
        i == k,
{
    if i < k {
        assert(crates[i].name != name);
    } else if k < i {
        assert(crates[k].name != name);
    }
}

/// A name resolves exactly when some package is stored under it, and then to
/// the identifier of the first such package.
pub proof fn lemma_resolve(crates: Seq<CrateView>, name: Seq<char>)
    ensures
        resolve(crates, name) is Some <==> exists|i: int|
            0 <= i < crates.len() && (#[trigger] crates[i]).name == name,
        forall|i: int|
            is_first_named(crates, name, i) ==> resolve(crates, name) == Some(crates[i].id),
{
    assert forall|i: int| is_first_named(crates, name, i) implies resolve(crates, name) == Some(
        crates[i].id,
    ) by {
        let k = choose|k: int| is_first_named(crates, name, k);
        lemma_first_named_unique(crates, name, i, k);
    }
    if exists|i: int| 0 <= i < crates.len() && (#[trigger] crates[i]).name == name {
        let i = choose|i: int| 0 <= i < crates.len() && (#[trigger] crates[i]).name == name;
        lemma_some_first(crates, name, i);
    }
}

/// Where a package at place `i` bears the name, some place at or before `i` is the first.
proof fn lemma_some_first(crates: Seq<CrateView>, name: Seq<char>, i: int)
    requires
        0 <= i < crates.len(),
        crates[i].name == name,
    ensures
        exists|k: int| is_first_named(crates, name, k),
    decreases i,
{
    if exists|j: int| 0 <= j < i && (#[trigger] crates[j]).name == name {
        let j = choose|j: int| 0 <= j < i && (#[trigger] crates[j]).name == name;
        lemma_some_first(crates, name, j);
    } else {
        assert(is_first_named(crates, name, i));
    }
}

/// Looks a declared name up among the packages that the table gave back.
pub fn find_crate(crates: &[Crate], name: &String) -> (id: Option<i32>)
    ensures
        id == resolve(crates_view(crates@), name@),
{
    let ghost views = crates_view(crates@);
    let mut i: usize = 0;
    while i < crates.len()
        invariant
            i <= crates.len(),
            views == crates_view(crates@),
            forall|j: int| 0 <= j < i ==> (#[trigger] views[j]).name != name@,
        decreases crates.len() - i,
    {
        if crates[i].name == *name {
            proof {
                assert(views[i as int] == crates[i as int]@);
                assert(is_first_named(views, name@, i as int));
                lemma_resolve(views, name@);
            }
            return Some(crates[i].id);
        }
        assert(views[i as int] == crates[i as int]@);
        i = i + 1;
    }
    proof {
        lemma_resolve(views, name@);
    }
    None
}

} // verus!
