//! Viewport arithmetic for the scrolling lists.
use vstd::prelude::*;

verus! {

/// The first visible row of a viewport of `height` rows over `total` rows
/// that keeps row `selected` at the middle (`height / 2`) where it can.
pub open spec fn centered_offset(selected: int, total: int, height: int) -> int {
    if total <= height || height == 0 {
        0
    } else {
        let ideal = if selected > height / 2 { selected - height / 2 } else { 0 };
        let max_start = total - height;
        if ideal < max_start { ideal } else { max_start }
    }
}

/// Computes the centered scroll offset (0-based start index) for a viewport of `visible_height`
/// so that `selected` is kept centered at `visible_height / 2` whenever possible.
pub fn centered_scroll_offset(selected: usize, total_items: usize, visible_height: usize) -> (r: usize)
    ensures
        r == centered_offset(selected as int, total_items as int, visible_height as int),
{
    if total_items <= visible_height || visible_height == 0 {
        return 0;
    }
    let half = visible_height / 2;
    let ideal_start = selected.saturating_sub(half);
    let max_start = total_items.saturating_sub(visible_height);
    if ideal_start < max_start { ideal_start } else { max_start }
}

/// The viewport never runs past the end of the list, and a selected row
/// inside the list is always on screen.
pub proof fn lemma_selected_visible(selected: int, total: int, height: int)
    requires
        0 <= selected < total,
        0 < height,
    ensures
        0 <= centered_offset(selected, total, height),
        total > height ==> centered_offset(selected, total, height) + height <= total,
        centered_offset(selected, total, height) <= selected < centered_offset(selected, total, height)
            + height,
{
}

} // verus!
