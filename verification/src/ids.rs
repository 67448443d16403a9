//! Records are looked up by their id; the first record with the id wins.

use vstd::prelude::*;

verus! {

/// `i` is the position of the first `id` in `ids`.
pub open spec fn is_first_with_id(ids: Seq<u32>, id: u32, i: int) -> bool {
    &&& 0 <= i < ids.len()
    &&& ids[i] == id
    &&& forall|j: int| 0 <= j < i ==> ids[j] != id
}

/// No id occurs twice in `ids`.
pub open spec fn ids_distinct(ids: Seq<u32>) -> bool {
    forall|i: int, j: int| 0 <= i < ids.len() && 0 <= j < ids.len() && i != j ==> ids[i] != ids[j]
}

} // verus!
