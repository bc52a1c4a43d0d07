//! Copies of owned strings and of collections of them, stated over their characters.

use vstd::prelude::*;

verus! {

/// A copy of a list of strings: the same strings in the same order.
pub fn clone_strings(items: &[String]) -> (copy: Vec<String>)
    ensures
        copy.deep_view() == items.deep_view(),
{
    let mut copy: Vec<String> = Vec::new();
    let mut i: usize = 0;
    while i < items.len()
        invariant
            i <= items.len(),
            copy.len() == i,
            forall|j: int| 0 <= j < i ==> copy[j]@ == items[j]@,
        decreases items.len() - i,
    {
        copy.push(items[i].clone());
        i = i + 1;
    }
    assert(copy.deep_view() =~= items.deep_view());
    copy
}

/// A copy of a string that may be absent.
pub fn clone_optional(item: &Option<String>) -> (copy: Option<String>)
    ensures
        copy.deep_view() == item.deep_view(),
{
    match item {
        Some(s) => Some(s.clone()),
        None => None,
    }
}

} // verus!
