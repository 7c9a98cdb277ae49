//! Moving the highlight through a list that wraps round at both ends.

use vstd::prelude::*;

verus! {

/// The index below `selected` in a list of `count` items: one further, the
/// first after the last, and the first where nothing was selected.
pub open spec fn index_after(selected: Option<usize>, count: int) -> int {
    match selected {
        Some(i) => if i + 1 < count {
            i + 1
        } else {
            0
        },
        None => 0,
    }
}

/// The index above `selected` in a list of `count` items: one back, the last
/// before the first, and the first where nothing was selected or the list is
/// empty.
pub open spec fn index_before(selected: Option<usize>, count: int) -> int {
    match selected {
        Some(i) => if i > 0 {
            i - 1
        } else if count > 0 {
            count - 1
        } else {
            0
        },
        None => 0,
    }
}

/// The item to highlight after a step down.
pub fn next_index(selected: Option<usize>, count: usize) -> (index: usize)
    ensures
        index as int == index_after(selected, count as int),
{
    match selected {
        Some(i) => if i < count && i + 1 < count {
            i + 1
        } else {
            0
        },
        None => 0,
    }
}

/// The item to highlight after a step up.
pub fn previous_index(selected: Option<usize>, count: usize) -> (index: usize)
    ensures
        index as int == index_before(selected, count as int),
{
    match selected {
        Some(i) => if i > 0 {
            i - 1
        } else if count > 0 {
            count - 1
        } else {
            0
        },
        None => 0,
    }
}

/// From a valid highlight, a step lands on a valid one, and a step down
/// followed by a step up comes back to where it began.
pub proof fn lemma_steps_stay_in_list(i: usize, count: int)
    requires
        0 <= i < count <= usize::MAX,
    ensures
        0 <= index_after(Some(i), count) < count,
        0 <= index_before(Some(i), count) < count,
        index_before(Some(index_after(Some(i), count) as usize), count) == i,
        index_after(Some(index_before(Some(i), count) as usize), count) == i,
{
}

} // verus!
