//! Grid arithmetic for the broker's rendering: whether a child
//! rectangle lies strictly inside a parent, and the margin that centers
//! the body column.

use vstd::prelude::*;

verus! {

/// A rectangle of character cells.
#[derive(Clone, Copy, PartialEq, Eq, Structural, Debug)]
pub struct Rect {
    pub x: u16,
    pub y: u16,
    pub width: u16,
    pub height: u16,
}

/// True iff `child` lies strictly inside `parent` on every side.
pub open spec fn spec_rect_in_range(parent: Rect, child: Rect) -> bool {
    &&& child.x > parent.x
    &&& child.y > parent.y
    &&& child.x + child.width < parent.x + parent.width
    &&& child.y + child.height < parent.y + parent.height
}

/// Decide whether `child` lies strictly inside `parent`: a part drawn
/// outside its board is skipped.
pub fn is_rect_in_range(parent: Rect, child: Rect) -> (r: bool)
    ensures
        r == spec_rect_in_range(parent, child),
{
    let p_x_max = parent.x as u32 + parent.width as u32;
    let p_y_max = parent.y as u32 + parent.height as u32;
    let c_x_max = child.x as u32 + child.width as u32;
    let c_y_max = child.y as u32 + child.height as u32;
    child.x > parent.x && child.y > parent.y && c_x_max < p_x_max && c_y_max < p_y_max
}

/// The percentage margin that centers a body of `size` columns in
/// `rect`.
pub open spec fn spec_body_margin(width: int, size: int) -> int {
    if width < size {
        0
    } else {
        100 * ((width - size) / 2) / width
    }
}

/// Compute the centering margin, as a percentage of the width.
pub fn get_body_margin(rect: Rect, size: u16) -> (r: u16)
    requires
        rect.width > 0 || size > 0,
    ensures
        r == spec_body_margin(rect.width as int, size as int),
{
    if rect.width < size {
        0
    } else {
        let w = rect.width as u32;
        let s = size as u32;
        let d = (w - s) / 2;
        proof {
            assert(d <= w) by (nonlinear_arith)
                requires
                    s <= w && d == (w - s) / 2,
            ;
        }
        let m = 100 * d / w;
        proof {
            assert(m <= 100) by (nonlinear_arith)
                requires
                    w > 0 && d <= w && m == 100 * (d as int) / (w as int),
            ;
        }
        m as u16
    }
}

} // verus!
