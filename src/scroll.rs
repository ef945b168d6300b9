//! The "just scroll into view" rule, applied to one axis at a time.
use vstd::prelude::*;

verus! {

/// The new offset of one axis: when the cursor `loc` lies at or past the
/// far edge of the window `[off, off + extent)`, the window moves just far
/// enough that the cursor is its last cell; then, when the cursor lies
/// before the window, the window starts at the cursor.
pub open spec fn scroll_axis(loc: int, off: int, extent: int) -> int {
    let first = if loc >= off + extent { loc - extent + 1 } else { off };
    if loc < first { loc } else { first }
}

/// Whether either scroll rule fires on this axis.
pub open spec fn scroll_fires(loc: int, off: int, extent: int) -> bool {
    loc >= off + extent || loc < off
}

/// Once scrolled, a window of positive extent holds the cursor, and a window
/// that already held it has not moved.
pub proof fn lemma_scroll_axis_holds_cursor(loc: int, off: int, extent: int)
    requires
        extent > 0,
    ensures
        scroll_axis(loc, off, extent) <= loc < scroll_axis(loc, off, extent) + extent,
        off <= loc < off + extent ==> scroll_axis(loc, off, extent) == off,
        !scroll_fires(loc, off, extent) ==> scroll_axis(loc, off, extent) == off,
{
}

/// Scrolls one axis: the new offset, and whether it is a change that asks
/// for a redraw.
pub fn scroll_one_axis(loc: usize, off: usize, extent: usize) -> (r: (usize, bool))
    ensures
        r.0 == scroll_axis(loc as int, off as int, extent as int),
        r.1 == scroll_fires(loc as int, off as int, extent as int),
{
    if loc >= off && loc - off >= extent {
        if extent == 0 {
            (loc, true)
        } else {
            (loc - extent + 1, true)
        }
    } else if loc < off {
        (loc, true)
    } else {
        (off, false)
    }
}

} // verus!
