use vstd::prelude::*;
use crate::geometry::{Rect, abs, min, max};

verus! {

/// Base colour of a primary window (0x00BBGGRR).
pub const PRIMARY_BG_COLOR: u32 = 0x00222222;

/// Base colour of a secondary (companion) window (0x00BBGGRR).
pub const SECONDARY_BG_COLOR: u32 = 0x002d4a22;

/// Gap kept between an anchor and an auto-placed companion window.
pub const SECONDARY_PADDING: i32 = 10;

/// The role of a result window, which decides where it goes and its colour.
#[derive(Clone, Copy, Debug, PartialEq, Eq, Structural)]
pub enum WindowType {
    /// At the anchor's top-left corner.
    Primary,
    /// Next to the anchor, kept on the work area.
    Secondary,
    /// At a rectangle the caller computed; companion colour.
    SecondaryExplicit,
}

/// Where a window goes, its size and its base colour.
#[derive(Clone, Copy, Debug, PartialEq, Eq, Structural)]
pub struct Placement {
    pub x: i32,
    pub y: i32,
    pub width: i32,
    pub height: i32,
    pub bg_color: u32,
}

impl Placement {
    pub open spec fn rect(self) -> Rect {
        Rect {
            left: self.x,
            top: self.y,
            right: (self.x + self.width) as i32,
            bottom: (self.y + self.height) as i32,
        }
    }
}




pub open spec fn clamp(v: int, lo: int, hi: int) -> int {
    max(lo, min(v, hi))
}

/// The anchor's width and height fit an `i32`.
pub open spec fn anchor_ok(r: Rect) -> bool {
    abs(r.right - r.left) <= i32::MAX && abs(r.bottom - r.top) <= i32::MAX
}

/// The work area is not inverted and its size fits an `i32`.
pub open spec fn work_area_ok(w: Rect) -> bool {
    w.is_ordered() && w.right - w.left <= i32::MAX && w.bottom - w.top <= i32::MAX
}

/// Origin of a companion window of size `w` x `h` next to `anchor`, before clamping:
/// the first of right, below, left and above with room for it; failing that, the
/// direction with the most room (ties: right, left, below, above).
pub open spec fn companion_origin(anchor: Rect, work: Rect, w: int, h: int) -> (int, int) {
    let pad = SECONDARY_PADDING as int;
    let right_x = anchor.right + pad;
    let left_x = anchor.left - w - pad;
    let bottom_y = anchor.bottom + pad;
    let top_y = anchor.top - h - pad;
    let space_right = work.right - right_x;
    let space_left = (anchor.left - pad) - work.left;
    let space_bottom = work.bottom - bottom_y;
    let space_top = (anchor.top - pad) - work.top;
    if space_right >= w {
        (right_x, anchor.top as int)
    } else if space_bottom >= h {
        (anchor.left as int, bottom_y)
    } else if space_left >= w {
        (left_x, anchor.top as int)
    } else if space_top >= h {
        (anchor.left as int, top_y)
    } else {
        let most = max(max(max(space_right, space_left), space_bottom), space_top);
        if most == space_right {
            (right_x, anchor.top as int)
        } else if most == space_left {
            (left_x, anchor.top as int)
        } else if most == space_bottom {
            (anchor.left as int, bottom_y)
        } else {
            (anchor.left as int, top_y)
        }
    }
}

pub open spec fn place_window_spec(anchor: Rect, win_type: WindowType, work: Rect) -> Placement {
    let w = abs(anchor.right - anchor.left);
    let h = abs(anchor.bottom - anchor.top);
    match win_type {
        WindowType::Primary => Placement {
            x: anchor.left,
            y: anchor.top,
            width: w as i32,
            height: h as i32,
            bg_color: PRIMARY_BG_COLOR,
        },
        WindowType::SecondaryExplicit => Placement {
            x: anchor.left,
            y: anchor.top,
            width: w as i32,
            height: h as i32,
            bg_color: SECONDARY_BG_COLOR,
        },
        WindowType::Secondary => {
            let safe_w = min(w, work.right - work.left);
            let safe_h = min(h, work.bottom - work.top);
            let origin = companion_origin(anchor, work, w, h);
            Placement {
                x: clamp(origin.0, work.left as int, work.right - safe_w) as i32,
                y: clamp(origin.1, work.top as int, work.bottom - safe_h) as i32,
                width: safe_w as i32,
                height: safe_h as i32,
                bg_color: SECONDARY_BG_COLOR,
            }
        },
    }
}

fn min_i64(a: i64, b: i64) -> (r: i64)
    ensures
        r == min(a as int, b as int),
{
    if a <= b {
        a
    } else {
        b
    }
}

fn max_i64(a: i64, b: i64) -> (r: i64)
    ensures
        r == max(a as int, b as int),
{
    if a >= b {
        a
    } else {
        b
    }
}

fn abs_i64(a: i64) -> (r: i64)
    requires
        a > i64::MIN,
    ensures
        r == abs(a as int),
{
    if a < 0 {
        -a
    } else {
        a
    }
}

/// Position, size and colour of a new result window for the anchor rectangle
/// `anchor` (the captured region), given the work area of the anchor's monitor.
/// A `Secondary` window always lies inside the work area, shrunk to it if needed.
pub fn place_window(anchor: Rect, win_type: WindowType, work: Rect) -> (r: Placement)
    requires
        anchor_ok(anchor),
        win_type == WindowType::Secondary ==> work_area_ok(work),
    ensures
        r == place_window_spec(anchor, win_type, work),
        win_type == WindowType::Secondary ==> r.rect().inside(work),
        win_type != WindowType::Secondary ==> r.x == anchor.left && r.y == anchor.top,
{
    let w: i64 = abs_i64(anchor.right as i64 - anchor.left as i64);
    let h: i64 = abs_i64(anchor.bottom as i64 - anchor.top as i64);
    match win_type {
        WindowType::Primary => Placement {
            x: anchor.left,
            y: anchor.top,
            width: w as i32,
            height: h as i32,
            bg_color: PRIMARY_BG_COLOR,
        },
        WindowType::SecondaryExplicit => Placement {
            x: anchor.left,
            y: anchor.top,
            width: w as i32,
            height: h as i32,
            bg_color: SECONDARY_BG_COLOR,
        },
        WindowType::Secondary => {
            let pad: i64 = SECONDARY_PADDING as i64;
            let right_x: i64 = anchor.right as i64 + pad;
            let left_x: i64 = anchor.left as i64 - w - pad;
            let bottom_y: i64 = anchor.bottom as i64 + pad;
            let top_y: i64 = anchor.top as i64 - h - pad;
            let space_right: i64 = work.right as i64 - right_x;
            let space_left: i64 = (anchor.left as i64 - pad) - work.left as i64;
            let space_bottom: i64 = work.bottom as i64 - bottom_y;
            let space_top: i64 = (anchor.top as i64 - pad) - work.top as i64;
            let (best_x, best_y): (i64, i64) = if space_right >= w {
                (right_x, anchor.top as i64)
            } else if space_bottom >= h {
                (anchor.left as i64, bottom_y)
            } else if space_left >= w {
                (left_x, anchor.top as i64)
            } else if space_top >= h {
                (anchor.left as i64, top_y)
            } else {
                let most = max_i64(
                    max_i64(max_i64(space_right, space_left), space_bottom),
                    space_top,
                );
                if most == space_right {
                    (right_x, anchor.top as i64)
                } else if most == space_left {
                    (left_x, anchor.top as i64)
                } else if most == space_bottom {
                    (anchor.left as i64, bottom_y)
                } else {
                    (anchor.left as i64, top_y)
                }
            };
            let safe_w = min_i64(w, work.right as i64 - work.left as i64);
            let safe_h = min_i64(h, work.bottom as i64 - work.top as i64);
            let x = max_i64(work.left as i64, min_i64(best_x, work.right as i64 - safe_w));
            let y = max_i64(work.top as i64, min_i64(best_y, work.bottom as i64 - safe_h));
            Placement { x: x as i32, y: y as i32, width: safe_w as i32, height: safe_h as i32, bg_color: SECONDARY_BG_COLOR }
        },
    }
}

} // verus!
