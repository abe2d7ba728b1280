//! Viewport scrolling math.
//!
//! The scroll offset is measured in lines from the bottom of the log buffer.
//! Every frame re-clamps the offset to the authoritative bound
//! `max(0, total - visible_height)` and selects the contiguous window
//! `[start, end)` of the buffer to display.  The page-up step uses a slightly
//! different soft ceiling (`max(0, total - SCROLL_SLACK)`); the frame-time
//! clamp overrides it on the next render.

use vstd::prelude::*;

verus! {

/// How many lines a page-up / page-down keypress moves the viewport.
pub const SCROLL_STEP: usize = 5;

/// The page-up step keeps at least this many lines below the ceiling it
/// clamps to; the render-time clamp is the authoritative bound.
pub const SCROLL_SLACK: usize = 3;

/// The frame-time scroll bound: `max(0, total - height)`, and the offset
/// clamped to it.
pub open spec fn clamped_offset(total: int, height: int, offset: int) -> int {
    let max_scroll = if total - height > 0 {
        total - height
    } else {
        0
    };
    if offset > max_scroll {
        max_scroll
    } else {
        offset
    }
}

/// Exclusive end of the displayed window: `total - clamped offset`.
pub open spec fn window_end(total: int, height: int, offset: int) -> int {
    total - clamped_offset(total, height, offset)
}

/// Inclusive start of the displayed window: `max(0, end - height)`.
pub open spec fn window_start(total: int, height: int, offset: int) -> int {
    let end = window_end(total, height, offset);
    if end - height > 0 {
        end - height
    } else {
        0
    }
}

/// The window always lies inside the buffer and never exceeds the visible
/// height, whatever the buffer length, height and raw offset are.
pub proof fn lemma_window_within_bounds(total: int, height: int, offset: int)
    requires
        0 <= total,
        0 <= height,
        0 <= offset,
    ensures
        0 <= window_start(total, height, offset),
        window_start(total, height, offset) <= window_end(total, height, offset),
        window_end(total, height, offset) <= total,
        window_end(total, height, offset) - window_start(total, height, offset) <= height,
{
}

/// Ceiling of the page-up step: `max(0, total - SCROLL_SLACK)`.
pub open spec fn scroll_up_ceiling(total: int) -> int {
    if total - SCROLL_SLACK as int > 0 {
        total - SCROLL_SLACK as int
    } else {
        0
    }
}

/// Offset after one page-up: `min(offset + SCROLL_STEP, scroll_up_ceiling(total))`.
pub open spec fn scroll_up_target(offset: int, total: int) -> int {
    let ceiling = scroll_up_ceiling(total);
    if offset + SCROLL_STEP as int <= ceiling {
        offset + SCROLL_STEP as int
    } else {
        ceiling
    }
}

/// Offset after one page-down: `max(0, offset - SCROLL_STEP)`.
pub open spec fn scroll_down_target(offset: int) -> int {
    if offset - SCROLL_STEP as int > 0 {
        offset - SCROLL_STEP as int
    } else {
        0
    }
}

/// A page-up followed by a page-down returns to the original offset, as long
/// as the page-up was not clamped by its ceiling (and the buffer does not
/// change in between).
pub proof fn lemma_scroll_round_trip(offset: int, total: int)
    requires
        0 <= offset,
        offset + SCROLL_STEP as int <= scroll_up_ceiling(total),
    ensures
        scroll_down_target(scroll_up_target(offset, total)) == offset,
{
}

/// Clamps `offset` to the frame-time bound and computes the window of the
/// buffer to display, exactly as the spec-level formulas say.
pub fn window_bounds(total: usize, height: usize, offset: usize) -> (r: (usize, usize, usize))
    ensures
        r.0 == clamped_offset(total as int, height as int, offset as int),
        r.1 == window_start(total as int, height as int, offset as int),
        r.2 == window_end(total as int, height as int, offset as int),
        r.1 <= r.2 <= total,
        r.2 - r.1 <= height,
{
    let max_scroll: usize = if total > height {
        total - height
    } else {
        0
    };
    let clamped: usize = if offset > max_scroll {
        max_scroll
    } else {
        offset
    };
    let end: usize = total - clamped;
    let start: usize = if end > height {
        end - height
    } else {
        0
    };
    (clamped, start, end)
}

} // verus!
