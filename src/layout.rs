use vstd::prelude::*;
use crate::geometry::{Rect, tdiv};

verus! {

/// Side length of the square action buttons.
pub const BUTTON_SIZE: i32 = 28;

/// Distance between the copy button and the window's right and bottom edges.
pub const BUTTON_MARGIN: i32 = 12;

/// Horizontal gap between neighbouring buttons.
pub const BUTTON_GAP: i32 = 8;

/// Width of the band along each window edge that starts a resize.
pub const RESIZE_MARGIN: i32 = 8;

/// Which edge or corner of a window the pointer is on.
#[derive(Clone, Copy, Debug, PartialEq, Eq, Structural)]
pub enum ResizeEdge {
    NoEdge,
    Left,
    Right,
    Top,
    Bottom,
    TopLeft,
    TopRight,
    BottomLeft,
    BottomRight,
}

/// The controls of a result window that a click can reach.
#[derive(Clone, Copy, Debug, PartialEq, Eq, Structural)]
pub enum Control {
    Copy,
    Edit,
    Undo,
    Background,
}

/// Top of the button row: centred vertically in a short window,
/// otherwise one margin above the bottom edge.
pub open spec fn button_top(window_h: int) -> int {
    if window_h < BUTTON_SIZE + 2 * BUTTON_MARGIN {
        tdiv(window_h - BUTTON_SIZE, 2)
    } else {
        window_h - BUTTON_MARGIN - BUTTON_SIZE
    }
}

pub open spec fn copy_btn_rect_spec(window_w: int, window_h: int) -> Rect {
    Rect {
        left: (window_w - BUTTON_MARGIN - BUTTON_SIZE) as i32,
        top: button_top(window_h) as i32,
        right: (window_w - BUTTON_MARGIN) as i32,
        bottom: (button_top(window_h) + BUTTON_SIZE) as i32,
    }
}

/// The button of the same size one gap to the left of `r`.
pub open spec fn left_neighbour(r: Rect) -> Rect {
    Rect {
        left: (r.left - BUTTON_SIZE - BUTTON_GAP) as i32,
        top: r.top,
        right: (r.left - BUTTON_GAP) as i32,
        bottom: r.bottom,
    }
}

pub open spec fn edit_btn_rect_spec(window_w: int, window_h: int) -> Rect {
    left_neighbour(copy_btn_rect_spec(window_w, window_h))
}

pub open spec fn undo_btn_rect_spec(window_w: int, window_h: int) -> Rect {
    left_neighbour(edit_btn_rect_spec(window_w, window_h))
}

/// Window dimensions that the layout arithmetic accepts.
pub open spec fn valid_size(window_w: int, window_h: int) -> bool {
    0 <= window_w <= i32::MAX && 0 <= window_h <= i32::MAX
}

/// Rectangle of the copy button, at the right end of the button row.
pub fn get_copy_btn_rect(window_w: i32, window_h: i32) -> (r: Rect)
    requires
        valid_size(window_w as int, window_h as int),
    ensures
        r == copy_btn_rect_spec(window_w as int, window_h as int),
        r.right - r.left == BUTTON_SIZE,
        r.bottom - r.top == BUTTON_SIZE,
{
    let threshold_h: i32 = BUTTON_SIZE + BUTTON_MARGIN * 2;
    let top: i32 = if window_h < threshold_h {
        (window_h - BUTTON_SIZE) / 2
    } else {
        window_h - BUTTON_MARGIN - BUTTON_SIZE
    };
    Rect {
        left: window_w - BUTTON_MARGIN - BUTTON_SIZE,
        top,
        right: window_w - BUTTON_MARGIN,
        bottom: top + BUTTON_SIZE,
    }
}

/// Rectangle of the edit (refine) button, left of the copy button.
pub fn get_edit_btn_rect(window_w: i32, window_h: i32) -> (r: Rect)
    requires
        valid_size(window_w as int, window_h as int),
    ensures
        r == edit_btn_rect_spec(window_w as int, window_h as int),
        r.right - r.left == BUTTON_SIZE,
{
    let copy_rect = get_copy_btn_rect(window_w, window_h);
    let width: i32 = copy_rect.right - copy_rect.left;
    Rect {
        left: copy_rect.left - width - BUTTON_GAP,
        top: copy_rect.top,
        right: copy_rect.left - BUTTON_GAP,
        bottom: copy_rect.bottom,
    }
}

/// Rectangle of the undo button, left of the edit button.
pub fn get_undo_btn_rect(window_w: i32, window_h: i32) -> (r: Rect)
    requires
        valid_size(window_w as int, window_h as int),
    ensures
        r == undo_btn_rect_spec(window_w as int, window_h as int),
{
    let edit_rect = get_edit_btn_rect(window_w, window_h);
    let width: i32 = edit_rect.right - edit_rect.left;
    Rect {
        left: edit_rect.left - width - BUTTON_GAP,
        top: edit_rect.top,
        right: edit_rect.left - BUTTON_GAP,
        bottom: edit_rect.bottom,
    }
}

pub open spec fn resize_edge_spec(width: int, height: int, x: int, y: int) -> ResizeEdge {
    let left = x < RESIZE_MARGIN;
    let right = x >= width - RESIZE_MARGIN;
    let top = y < RESIZE_MARGIN;
    let bottom = y >= height - RESIZE_MARGIN;
    if top && left {
        ResizeEdge::TopLeft
    } else if top && right {
        ResizeEdge::TopRight
    } else if bottom && left {
        ResizeEdge::BottomLeft
    } else if bottom && right {
        ResizeEdge::BottomRight
    } else if left {
        ResizeEdge::Left
    } else if right {
        ResizeEdge::Right
    } else if top {
        ResizeEdge::Top
    } else if bottom {
        ResizeEdge::Bottom
    } else {
        ResizeEdge::NoEdge
    }
}

/// The edge or corner whose band holds the client point `(x, y)`; corners win over edges.
pub fn get_resize_edge(width: i32, height: i32, x: i32, y: i32) -> (r: ResizeEdge)
    requires
        valid_size(width as int, height as int),
    ensures
        r == resize_edge_spec(width as int, height as int, x as int, y as int),
{
    let left = x < RESIZE_MARGIN;
    let right = x >= width - RESIZE_MARGIN;
    let top = y < RESIZE_MARGIN;
    let bottom = y >= height - RESIZE_MARGIN;
    if top && left {
        ResizeEdge::TopLeft
    } else if top && right {
        ResizeEdge::TopRight
    } else if bottom && left {
        ResizeEdge::BottomLeft
    } else if bottom && right {
        ResizeEdge::BottomRight
    } else if left {
        ResizeEdge::Left
    } else if right {
        ResizeEdge::Right
    } else if top {
        ResizeEdge::Top
    } else if bottom {
        ResizeEdge::Bottom
    } else {
        ResizeEdge::NoEdge
    }
}

pub open spec fn hit_test_spec(window_w: int, window_h: int, x: int, y: int, undo_shown: bool) -> Control {
    if copy_btn_rect_spec(window_w, window_h).contains_spec(x, y) {
        Control::Copy
    } else if edit_btn_rect_spec(window_w, window_h).contains_spec(x, y) {
        Control::Edit
    } else if undo_shown && undo_btn_rect_spec(window_w, window_h).contains_spec(x, y) {
        Control::Undo
    } else {
        Control::Background
    }
}

/// The control under the client point `(x, y)`. The undo button is only
/// reachable while it is shown, that is while there is history to undo.
pub fn hit_test(window_w: i32, window_h: i32, x: i32, y: i32, undo_shown: bool) -> (r: Control)
    requires
        valid_size(window_w as int, window_h as int),
    ensures
        r == hit_test_spec(window_w as int, window_h as int, x as int, y as int, undo_shown),
{
    if get_copy_btn_rect(window_w, window_h).contains(x, y) {
        Control::Copy
    } else if get_edit_btn_rect(window_w, window_h).contains(x, y) {
        Control::Edit
    } else if undo_shown && get_undo_btn_rect(window_w, window_h).contains(x, y) {
        Control::Undo
    } else {
        Control::Background
    }
}

} // verus!
