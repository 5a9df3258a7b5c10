//! Finding a free id among the ids in use.

use vstd::prelude::*;

verus! {

/// Every id is smaller than all ids after it.
pub open spec fn strictly_ascending(ids: Seq<usize>) -> bool {
    forall|a: int, b: int| 0 <= a < b < ids.len() ==> ids[a] < ids[b]
}

/// `index` is the first position of `ids` that does not hold its own
/// index, or the length of `ids` if every position does.
pub open spec fn is_first_gap(ids: Seq<usize>, index: int) -> bool {
    &&& 0 <= index <= ids.len()
    &&& forall|j: int| 0 <= j < index ==> ids[j] == j
    &&& index < ids.len() ==> ids[index] != index
}

/// The first position of `ids` that does not hold its own index, or the
/// length of `ids` if every position does.
pub fn first_available_id_index(ids: &[usize]) -> (index: usize)
    ensures
        is_first_gap(ids@, index as int),
{
    let mut index: usize = 0;
    while index < ids.len()
        invariant
            index <= ids@.len(),
            forall|j: int| 0 <= j < index ==> ids@[j] == j,
        decreases ids@.len() - index,
    {
        if ids[index] != index {
            return index;
        }
        index = index + 1;
    }
    index
}

/// In a strictly ascending list of the ids in use, the first gap is the
/// least id that is free: every smaller id is in use and the gap itself is
/// not.
pub proof fn lemma_first_gap_is_least_free(ids: Seq<usize>, index: usize)
    requires
        strictly_ascending(ids),
        is_first_gap(ids, index as int),
    ensures
        forall|id: usize| id < index ==> ids.contains(id),
        !ids.contains(index),
{
    assert forall|id: usize| id < index implies ids.contains(id) by {
        assert(ids[id as int] == id);
    }
    if ids.contains(index) {
        let j = choose|j: int| 0 <= j < ids.len() && ids[j] == index;
        if j > index {
            if index > 0 {
                assert(ids[index - 1] < ids[index as int]);
            }
            assert(ids[index as int] < ids[j]);
        }
    }
}

} // verus!
