use vstd::prelude::*;

verus! {

/// Integer division rounding toward zero, as Rust's `/` does on signed integers.
pub open spec fn tdiv(a: int, b: int) -> int {
    if a >= 0 {
        a / b
    } else {
        -((-a) / b)
    }
}

pub open spec fn abs(a: int) -> int {
    if a < 0 { -a } else { a }
}

pub open spec fn min(a: int, b: int) -> int {
    if a <= b { a } else { b }
}

pub open spec fn max(a: int, b: int) -> int {
    if a >= b { a } else { b }
}

/// A point in pixels.
#[derive(Clone, Copy, Debug, PartialEq, Eq, Structural)]
pub struct Point {
    pub x: i32,
    pub y: i32,
}

/// An axis-aligned rectangle in pixels; `right` and `bottom` are exclusive.
#[derive(Clone, Copy, Debug, PartialEq, Eq, Structural)]
pub struct Rect {
    pub left: i32,
    pub top: i32,
    pub right: i32,
    pub bottom: i32,
}

impl Rect {
    /// The rectangle is not inverted.
    pub open spec fn is_ordered(self) -> bool {
        self.left <= self.right && self.top <= self.bottom
    }

    /// `self` lies entirely inside `outer`.
    pub open spec fn inside(self, outer: Rect) -> bool {
        outer.left <= self.left && self.right <= outer.right && outer.top <= self.top
            && self.bottom <= outer.bottom
    }

    pub open spec fn contains_spec(self, x: int, y: int) -> bool {
        self.left <= x < self.right && self.top <= y < self.bottom
    }

    /// Whether the point `(x, y)` lies in the rectangle (right and bottom edges excluded).
    pub fn contains(&self, x: i32, y: i32) -> (r: bool)
        ensures
            r == self.contains_spec(x as int, y as int),
    {
        self.left <= x && x < self.right && self.top <= y && y < self.bottom
    }
}

} // verus!
