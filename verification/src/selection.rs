//! The index-maintenance rule shared by every selection list in the tree.
//!
//! A selection list keeps two positions, the focus (`current`) and the last
//! committed choice (`selected`).  When an element is inserted at or before
//! such a position the position shifts one step down; when an element is
//! removed at or before it the position shifts one step up, clamped at zero.

use vstd::prelude::*;

verus! {

/// Where a tracked position lands after an insertion at `at`.
pub open spec fn shifted_on_insert(idx: int, at: int) -> int {
    if at <= idx {
        idx + 1
    } else {
        idx
    }
}

/// Where a tracked position lands after a removal at `at`.
pub open spec fn shifted_on_remove(idx: int, at: int) -> int {
    if at <= idx && idx > 0 {
        idx - 1
    } else {
        idx
    }
}

/// Under any sequence of insertions and removals the two tracked
/// positions stay inside the list: each single step keeps a valid pair
/// valid, landing exactly where the shift rule says, so any sequence of
/// steps does.
pub proof fn lemma_positions_stay_valid(current: int, selected: int, at: int, len: int)
    requires
        0 <= current < len,
        0 <= selected < len,
    ensures
        0 <= at <= len ==> 0 <= shifted_on_insert(current, at) < len + 1 && 0
            <= shifted_on_insert(selected, at) < len + 1,
        0 <= at < len && len > 1 ==> 0 <= shifted_on_remove(current, at) < len - 1 && 0
            <= shifted_on_remove(selected, at) < len - 1,
{
}

} // verus!
