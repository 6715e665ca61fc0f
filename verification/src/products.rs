//! Looking a product up by its id.

use vstd::prelude::*;

verus! {

/// `found` is the first position of `wanted` among `ids`, or nothing where
/// no position holds it.
pub open spec fn is_first_position(ids: Seq<u128>, wanted: u128, found: Option<usize>) -> bool {
    match found {
        Some(i) => i < ids.len() && ids[i as int] == wanted && forall|j: int|
            0 <= j < i ==> ids[j] != wanted,
        None => forall|j: int| 0 <= j < ids.len() ==> ids[j] != wanted,
    }
}

/// The first position among `ids` that holds `wanted`.
pub fn position_of(ids: &Vec<u128>, wanted: u128) -> (found: Option<usize>)
    ensures
        is_first_position(ids@, wanted, found),
{
    let mut i: usize = 0;
    while i < ids.len()
        invariant
            i <= ids.len(),
            forall|j: int| 0 <= j < i ==> ids@[j] != wanted,
        decreases ids.len() - i,
    {
        if ids[i] == wanted {
            return Some(i);
        }
        i = i + 1;
    }
    None
}

} // verus!
