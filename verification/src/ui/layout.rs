//! Placement of rectangles on the terminal.

use vstd::prelude::*;

verus! {

/// A rectangle of terminal cells.
#[derive(Debug, Clone, Copy, PartialEq, Eq, Structural)]
pub struct Rect {
    pub x: u16,
    pub y: u16,
    pub width: u16,
    pub height: u16,
}

/// `a - b`, or 0 when `b` is larger.
pub open spec fn minus_or_zero(a: u16, b: u16) -> int {
    if a >= b {
        a - b
    } else {
        0
    }
}

/// Centers a rectangle of the given size within `area`, shrinking it to fit.
pub fn centered_rect(width: u16, height: u16, area: Rect) -> (r: Rect)
    requires
        area.x + minus_or_zero(area.width, width) / 2 <= u16::MAX,
        area.y + minus_or_zero(area.height, height) / 2 <= u16::MAX,
    ensures
        r.x == area.x + minus_or_zero(area.width, width) / 2,
        r.y == area.y + minus_or_zero(area.height, height) / 2,
        r.width == if width < area.width {
            width
        } else {
            area.width
        },
        r.height == if height < area.height {
            height
        } else {
            area.height
        },
{
    let x = area.x + area.width.saturating_sub(width) / 2;
    let y = area.y + area.height.saturating_sub(height) / 2;
    Rect {
        x,
        y,
        width: if width < area.width {
            width
        } else {
            area.width
        },
        height: if height < area.height {
            height
        } else {
            area.height
        },
    }
}

/// A centered rectangle lies inside the area it is centered in.
pub proof fn lemma_centered_inside(width: u16, height: u16, area: Rect, r: Rect)
    requires
        r.x == area.x + minus_or_zero(area.width, width) / 2,
        r.y == area.y + minus_or_zero(area.height, height) / 2,
        r.width == if width < area.width {
            width
        } else {
            area.width
        },
        r.height == if height < area.height {
            height
        } else {
            area.height
        },
    ensures
        area.x <= r.x,
        r.x + r.width <= area.x + area.width,
        area.y <= r.y,
        r.y + r.height <= area.y + area.height,
{
}

} // verus!
