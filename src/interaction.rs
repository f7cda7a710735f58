use vstd::prelude::*;
use crate::geometry::{Point, Rect, abs, min, max};
use crate::layout::{
    ResizeEdge, resize_edge_spec, get_resize_edge, valid_size, copy_btn_rect_spec, edit_btn_rect_spec,
    undo_btn_rect_spec, get_copy_btn_rect, get_edit_btn_rect, get_undo_btn_rect,
};

verus! {

/// Smallest width a resize leaves a window.
pub const MIN_WINDOW_W: i32 = 50;

/// Smallest height a resize leaves a window.
pub const MIN_WINDOW_H: i32 = 30;

/// Movement in pixels, along either axis, beyond which a press is a drag and not a click.
pub const CLICK_SLOP: i32 = 3;

/// What a held pointer button is doing to the window.
#[derive(Clone, Copy, Debug, PartialEq, Eq, Structural)]
pub enum InteractionMode {
    /// No button held.
    Inactive,
    Resizing(ResizeEdge),
    DraggingWindow,
}

/// Pointer-press tracking of one window.
#[derive(Clone, Copy, Debug, PartialEq, Eq, Structural)]
pub struct InteractionState {
    pub interaction_mode: InteractionMode,
    pub drag_start_mouse: Point,
    pub drag_start_window_rect: Rect,
    pub has_moved_significantly: bool,
}

/// Hover flags of one window, recomputed on every pointer move.
#[derive(Clone, Copy, Debug, PartialEq, Eq, Structural)]
pub struct HoverState {
    pub is_hovered: bool,
    pub on_copy_btn: bool,
    pub on_edit_btn: bool,
    pub on_undo_btn: bool,
    pub current_resize_edge: ResizeEdge,
}

/// Bound on coordinates, which keeps all rectangle arithmetic inside `i32`.
pub const COORD_LIMIT: i32 = 100_000_000;

pub open spec fn coord_ok(v: int) -> bool {
    -COORD_LIMIT <= v <= COORD_LIMIT
}

/// A pointer movement between two points whose coordinates are within the bound.
pub open spec fn delta_ok(v: int) -> bool {
    -2 * COORD_LIMIT <= v <= 2 * COORD_LIMIT
}

pub open spec fn rect_ok(r: Rect) -> bool {
    coord_ok(r.left as int) && coord_ok(r.top as int) && coord_ok(r.right as int) && coord_ok(r.bottom as int)
}

pub open spec fn moves_left(e: ResizeEdge) -> bool {
    e == ResizeEdge::Left || e == ResizeEdge::TopLeft || e == ResizeEdge::BottomLeft
}

pub open spec fn moves_right(e: ResizeEdge) -> bool {
    e == ResizeEdge::Right || e == ResizeEdge::TopRight || e == ResizeEdge::BottomRight
}

pub open spec fn moves_top(e: ResizeEdge) -> bool {
    e == ResizeEdge::Top || e == ResizeEdge::TopLeft || e == ResizeEdge::TopRight
}

pub open spec fn moves_bottom(e: ResizeEdge) -> bool {
    e == ResizeEdge::Bottom || e == ResizeEdge::BottomLeft || e == ResizeEdge::BottomRight
}



/// The rectangle `start` with the edges of `edge` moved by `(dx, dy)`; a moved edge
/// stops where the window would get smaller than the minimum size.
pub open spec fn resized_rect_spec(start: Rect, edge: ResizeEdge, dx: int, dy: int) -> Rect {
    Rect {
        left: if moves_left(edge) { min(start.left + dx, start.right - MIN_WINDOW_W) as i32 } else { start.left },
        right: if moves_right(edge) { max(start.right + dx, start.left + MIN_WINDOW_W) as i32 } else { start.right },
        top: if moves_top(edge) { min(start.top + dy, start.bottom - MIN_WINDOW_H) as i32 } else { start.top },
        bottom: if moves_bottom(edge) { max(start.bottom + dy, start.top + MIN_WINDOW_H) as i32 } else { start.bottom },
    }
}

/// Resizes `start` by the pointer movement `(dx, dy)` on `edge`.
pub fn resized_rect(start: Rect, edge: ResizeEdge, dx: i32, dy: i32) -> (r: Rect)
    requires
        rect_ok(start),
        delta_ok(dx as int),
        delta_ok(dy as int),
    ensures
        r == resized_rect_spec(start, edge, dx as int, dy as int),
        moves_left(edge) || moves_right(edge) ==> r.right - r.left >= min(start.right - start.left, MIN_WINDOW_W as int),
        moves_top(edge) || moves_bottom(edge) ==> r.bottom - r.top >= min(start.bottom - start.top, MIN_WINDOW_H as int),
{
    let left = match edge {
        ResizeEdge::Left | ResizeEdge::TopLeft | ResizeEdge::BottomLeft => {
            let l = start.left + dx;
            if l <= start.right - MIN_WINDOW_W { l } else { start.right - MIN_WINDOW_W }
        },
        _ => start.left,
    };
    let right = match edge {
        ResizeEdge::Right | ResizeEdge::TopRight | ResizeEdge::BottomRight => {
            let r = start.right + dx;
            if r >= start.left + MIN_WINDOW_W { r } else { start.left + MIN_WINDOW_W }
        },
        _ => start.right,
    };
    let top = match edge {
        ResizeEdge::Top | ResizeEdge::TopLeft | ResizeEdge::TopRight => {
            let t = start.top + dy;
            if t <= start.bottom - MIN_WINDOW_H { t } else { start.bottom - MIN_WINDOW_H }
        },
        _ => start.top,
    };
    let bottom = match edge {
        ResizeEdge::Bottom | ResizeEdge::BottomLeft | ResizeEdge::BottomRight => {
            let b = start.bottom + dy;
            if b >= start.top + MIN_WINDOW_H { b } else { start.top + MIN_WINDOW_H }
        },
        _ => start.bottom,
    };
    Rect { left, top, right, bottom }
}

pub open spec fn moved_rect_spec(start: Rect, dx: int, dy: int) -> Rect {
    Rect {
        left: (start.left + dx) as i32,
        top: (start.top + dy) as i32,
        right: (start.right + dx) as i32,
        bottom: (start.bottom + dy) as i32,
    }
}

/// `start` moved by `(dx, dy)`.
pub fn moved_rect(start: Rect, dx: i32, dy: i32) -> (r: Rect)
    requires
        rect_ok(start),
        delta_ok(dx as int),
        delta_ok(dy as int),
    ensures
        r == moved_rect_spec(start, dx as int, dy as int),
{
    Rect { left: start.left + dx, top: start.top + dy, right: start.right + dx, bottom: start.bottom + dy }
}


/// The mode a press at client point `(x, y)` starts: a resize on an edge band, else a drag.
pub open spec fn press_mode(width: int, height: int, x: int, y: int) -> InteractionMode {
    let e = resize_edge_spec(width, height, x, y);
    if e == ResizeEdge::NoEdge { InteractionMode::DraggingWindow } else { InteractionMode::Resizing(e) }
}

/// The window rectangle that the held pointer at `pt` asks for.
pub open spec fn drag_target(s: InteractionState, pt: Point) -> Rect {
    let dx = pt.x - s.drag_start_mouse.x;
    let dy = pt.y - s.drag_start_mouse.y;
    match s.interaction_mode {
        InteractionMode::Resizing(e) => resized_rect_spec(s.drag_start_window_rect, e, dx, dy),
        _ => moved_rect_spec(s.drag_start_window_rect, dx, dy),
    }
}

pub open spec fn hover_spec(width: int, height: int, x: int, y: int, undo_shown: bool) -> HoverState {
    HoverState {
        is_hovered: true,
        on_copy_btn: copy_btn_rect_spec(width, height).contains_spec(x, y),
        on_edit_btn: edit_btn_rect_spec(width, height).contains_spec(x, y),
        on_undo_btn: undo_shown && undo_btn_rect_spec(width, height).contains_spec(x, y),
        current_resize_edge: resize_edge_spec(width, height, x, y),
    }
}

impl HoverState {
    /// Pointer outside the window.
    pub fn new() -> (r: HoverState)
        ensures
            !r.is_hovered && !r.on_copy_btn && !r.on_edit_btn && !r.on_undo_btn,
            r.current_resize_edge == ResizeEdge::NoEdge,
    {
        HoverState {
            is_hovered: false,
            on_copy_btn: false,
            on_edit_btn: false,
            on_undo_btn: false,
            current_resize_edge: ResizeEdge::NoEdge,
        }
    }

    /// Hover flags for the pointer at client point `(x, y)` of a `width` x `height` window.
    pub fn at(width: i32, height: i32, x: i32, y: i32, undo_shown: bool) -> (r: HoverState)
        requires
            valid_size(width as int, height as int),
        ensures
            r == hover_spec(width as int, height as int, x as int, y as int, undo_shown),
    {
        HoverState {
            is_hovered: true,
            on_copy_btn: get_copy_btn_rect(width, height).contains(x, y),
            on_edit_btn: get_edit_btn_rect(width, height).contains(x, y),
            on_undo_btn: undo_shown && get_undo_btn_rect(width, height).contains(x, y),
            current_resize_edge: get_resize_edge(width, height, x, y),
        }
    }

    /// The pointer is over one of the buttons.
    pub open spec fn on_button(self) -> bool {
        self.on_copy_btn || self.on_edit_btn || self.on_undo_btn
    }
}

impl InteractionState {
    pub fn new() -> (r: InteractionState)
        ensures
            r.interaction_mode == InteractionMode::Inactive,
            !r.has_moved_significantly,
    {
        InteractionState {
            interaction_mode: InteractionMode::Inactive,
            drag_start_mouse: Point { x: 0, y: 0 },
            drag_start_window_rect: Rect { left: 0, top: 0, right: 0, bottom: 0 },
            has_moved_significantly: false,
        }
    }

    /// Button pressed at client point `(x, y)`, screen point `screen`, on a window
    /// whose screen rectangle is `window_rect`: a resize on an edge band, otherwise a drag.
    pub fn pointer_down(&mut self, x: i32, y: i32, screen: Point, window_rect: Rect)
        requires
            0 <= window_rect.right - window_rect.left <= i32::MAX,
            0 <= window_rect.bottom - window_rect.top <= i32::MAX,
        ensures
            final(self).interaction_mode == press_mode(window_rect.right - window_rect.left,
                window_rect.bottom - window_rect.top, x as int, y as int),
            final(self).drag_start_mouse == screen,
            final(self).drag_start_window_rect == window_rect,
            !final(self).has_moved_significantly,
    {
        let w: i32 = window_rect.right - window_rect.left;
        let h: i32 = window_rect.bottom - window_rect.top;
        let edge = get_resize_edge(w, h, x, y);
        self.interaction_mode = match edge {
            ResizeEdge::NoEdge => InteractionMode::DraggingWindow,
            _ => InteractionMode::Resizing(edge),
        };
        self.drag_start_mouse = screen;
        self.drag_start_window_rect = window_rect;
        self.has_moved_significantly = false;
    }

    /// The held pointer is at screen point `pt`: returns the rectangle the window
    /// should take, or `None` when no button is held.
    pub fn pointer_drag(&mut self, pt: Point) -> (r: Option<Rect>)
        requires
            rect_ok(old(self).drag_start_window_rect),
            coord_ok(pt.x as int) && coord_ok(pt.y as int),
            coord_ok(old(self).drag_start_mouse.x as int) && coord_ok(old(self).drag_start_mouse.y as int),
        ensures
            old(self).interaction_mode == InteractionMode::Inactive ==> r is None && *final(self) == *old(self),
            old(self).interaction_mode != InteractionMode::Inactive ==> {
                &&& r == Some(drag_target(*old(self), pt))
                &&& final(self).has_moved_significantly == (old(self).has_moved_significantly
                    || abs(pt.x - old(self).drag_start_mouse.x) > CLICK_SLOP
                    || abs(pt.y - old(self).drag_start_mouse.y) > CLICK_SLOP)
                &&& *final(self) == InteractionState { has_moved_significantly: final(self).has_moved_significantly, ..*old(self) }
            },
    {
        match self.interaction_mode {
            InteractionMode::Inactive => None,
            mode => {
                let dx: i32 = pt.x - self.drag_start_mouse.x;
                let dy: i32 = pt.y - self.drag_start_mouse.y;
                if dx > CLICK_SLOP || dx < -CLICK_SLOP || dy > CLICK_SLOP || dy < -CLICK_SLOP {
                    self.has_moved_significantly = true;
                }
                let r = match mode {
                    InteractionMode::Resizing(e) => resized_rect(self.drag_start_window_rect, e, dx, dy),
                    _ => moved_rect(self.drag_start_window_rect, dx, dy),
                };
                Some(r)
            },
        }
    }

    /// Button released: returns whether the press was a click (a button was held and
    /// the pointer stayed within the slop). The mode always goes back to `Inactive`.
    pub fn pointer_up(&mut self) -> (clicked: bool)
        ensures
            clicked == (old(self).interaction_mode != InteractionMode::Inactive && !old(self).has_moved_significantly),
            *final(self) == (InteractionState { interaction_mode: InteractionMode::Inactive, ..*old(self) }),
    {
        let clicked = match self.interaction_mode {
            InteractionMode::Inactive => false,
            _ => !self.has_moved_significantly,
        };
        self.interaction_mode = InteractionMode::Inactive;
        clicked
    }
}

} // verus!
