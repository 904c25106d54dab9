//! The feed page as the platform hands it back, and the identity
//! extraction step: each fetched item is reduced to the one field the rest
//! of the run consumes, its stable identifier.

use vstd::prelude::*;

verus! {

/// One fetched item, reduced to what the run reads of it.
pub struct FetchedItem {
    /// The platform's stable identifier for the item: the address that a
    /// per-item action is sent to.
    pub name: String,
}

/// Extracts each item's stable identifier from a fetched page, preserving
/// the platform's order and keeping every item: the result holds exactly
/// the identifiers of the page, position by position.
pub fn extract_ids(items: &Vec<FetchedItem>) -> (r: Vec<String>)
    ensures
        r@ == items@.map_values(|t: FetchedItem| t.name),
{
    let mut r: Vec<String> = Vec::new();
    let mut i: usize = 0;
    while i < items.len()
        invariant
            i <= items@.len(),
            r@.len() == i,
            forall|j: int| 0 <= j < i ==> r@[j] == items@[j].name,
        decreases items@.len() - i,
    {
        r.push(items[i].name.clone());
        i = i + 1;
    }
    proof {
        assert(r@ =~= items@.map_values(|t: FetchedItem| t.name));
    }
    r
}

} // verus!
