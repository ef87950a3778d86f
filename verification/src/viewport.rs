//! Viewport windowing: which contiguous slice of a list (or of a flattened
//! row sequence) is visible, given the total extent, the focus position and
//! the container height.

use vstd::prelude::*;

verus! {

/// First visible position for a list of `n` items, focus `f`, height `h`.
///
/// The window is `[window_start(n, f, h), window_start(n, f, h) + h)`:
/// pinned to the top while the focus is in the first half screen, pinned to
/// the bottom while it is in the last half screen, and centered otherwise.
pub open spec fn spec_window_start(n: int, f: int, h: int) -> int {
    if h >= n || f <= h / 2 {
        0
    } else if f + h / 2 >= n {
        n - h
    } else {
        f - h / 2
    }
}

/// Computes the first visible position; equal to `spec_window_start`.
pub fn window_start(n: usize, f: usize, h: usize) -> (r: usize)
    ensures
        r == spec_window_start(n as int, f as int, h as int),
{
    if h >= n || f <= h / 2 {
        0
    } else if f >= n - h / 2 {
        n - h
    } else {
        f - h / 2
    }
}

/// The window never starts below zero nor past `n - h`, and it contains the
/// focus whenever the focus is a valid position and the height is positive.
pub proof fn lemma_window_start_bounds(n: int, f: int, h: int)
    requires
        0 <= f < n,
        1 <= h,
    ensures
        0 <= spec_window_start(n, f, h),
        spec_window_start(n, f, h) <= if n - h >= 0 { n - h } else { 0 },
        spec_window_start(n, f, h) <= f,
        f < spec_window_start(n, f, h) + h,
{
}

} // verus!
