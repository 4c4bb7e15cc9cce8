//! Points and axis-aligned rectangles in screen pixel coordinates.
use vstd::prelude::*;

verus! {

/// A point in screen pixels, origin at the top-left of the primary display.
#[derive(Clone, Copy, Debug, PartialEq, Eq, Structural)]
pub struct Pos {
    pub x: i32,
    pub y: i32,
}

/// An axis-aligned rectangle given by its two corners.
#[derive(Clone, Copy, Debug, PartialEq, Eq, Structural)]
pub struct Rect {
    pub min: Pos,
    pub max: Pos,
}

pub open spec fn min_i32(a: i32, b: i32) -> i32 {
    if a <= b { a } else { b }
}

pub open spec fn max_i32(a: i32, b: i32) -> i32 {
    if a <= b { b } else { a }
}

/// The corner-wise smaller point of `a` and `b`.
pub open spec fn pos_min(a: Pos, b: Pos) -> Pos {
    Pos { x: min_i32(a.x, b.x), y: min_i32(a.y, b.y) }
}

/// The corner-wise larger point of `a` and `b`.
pub open spec fn pos_max(a: Pos, b: Pos) -> Pos {
    Pos { x: max_i32(a.x, b.x), y: max_i32(a.y, b.y) }
}

/// The rectangle spanned by two arbitrary points.
pub open spec fn rect_of(a: Pos, b: Pos) -> Rect {
    Rect { min: pos_min(a, b), max: pos_max(a, b) }
}

impl Pos {
    pub fn new(x: i32, y: i32) -> (r: Pos)
        ensures
            r.x == x,
            r.y == y,
    {
        Pos { x, y }
    }

    /// The origin `(0, 0)`, used where the pointer reports no position.
    pub fn zero() -> (r: Pos)
        ensures
            r.x == 0,
            r.y == 0,
    {
        Pos { x: 0, y: 0 }
    }

    /// Component-wise minimum.
    pub fn min(self, other: Pos) -> (r: Pos)
        ensures
            r == pos_min(self, other),
    {
        Pos {
            x: if self.x <= other.x { self.x } else { other.x },
            y: if self.y <= other.y { self.y } else { other.y },
        }
    }

    /// Component-wise maximum.
    pub fn max(self, other: Pos) -> (r: Pos)
        ensures
            r == pos_max(self, other),
    {
        Pos {
            x: if self.x <= other.x { other.x } else { self.x },
            y: if self.y <= other.y { other.y } else { self.y },
        }
    }
}

impl Rect {
    /// A rectangle is normalized when its `min` corner is nowhere past its `max` corner.
    pub open spec fn wf(self) -> bool {
        self.min.x <= self.max.x && self.min.y <= self.max.y
    }

    /// The normalized rectangle spanned by `a` and `b`, whatever their order.
    pub fn from_points(a: Pos, b: Pos) -> (r: Rect)
        ensures
            r == rect_of(a, b),
            r.min == pos_min(a, b),
            r.max == pos_max(a, b),
            r.wf(),
    {
        Rect { min: a.min(b), max: a.max(b) }
    }
}

/// Every rectangle spanned by two points is normalized, and its corners are
/// the component-wise minimum and maximum of the points.
pub proof fn lemma_rect_normalized(a: Pos, b: Pos)
    ensures
        rect_of(a, b).min == pos_min(a, b),
        rect_of(a, b).max == pos_max(a, b),
        rect_of(a, b).wf(),
        rect_of(a, b).min.x <= rect_of(a, b).max.x,
        rect_of(a, b).min.y <= rect_of(a, b).max.y,
{
}

/// The rectangle spanned by two points does not depend on their order.
pub proof fn lemma_rect_order_independent(a: Pos, b: Pos)
    ensures
        rect_of(a, b) == rect_of(b, a),
{
}

} // verus!
