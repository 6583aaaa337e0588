//! Axis-aligned world geometry: 2D vectors and rectangles in exact
//! subpixel units.

use vstd::prelude::*;
use crate::COORD_LIMIT;

verus! {

/// A 2D vector in subpixel units; also used for requested and clamped
/// displacements.
#[derive(Clone, Copy, Debug, PartialEq, Eq, Structural)]
pub struct Vec2 {
    pub x: i64,
    pub y: i64,
}

/// An axis-aligned rectangle in world subpixel units,
/// `left <= right` and `bottom <= top`.
#[derive(Clone, Copy, Debug, PartialEq, Eq, Structural)]
pub struct Rect {
    pub left: i64,
    pub right: i64,
    pub bottom: i64,
    pub top: i64,
}

impl Vec2 {
    pub open spec fn in_bounds(self) -> bool {
        -COORD_LIMIT <= self.x <= COORD_LIMIT && -COORD_LIMIT <= self.y <= COORD_LIMIT
    }

    pub fn new(x: i64, y: i64) -> (r: Vec2)
        ensures
            r.x == x,
            r.y == y,
    {
        Vec2 { x, y }
    }
}

impl Rect {
    /// Well-formed: edges ordered and within the coordinate bound.
    pub open spec fn wf(self) -> bool {
        &&& self.left <= self.right
        &&& self.bottom <= self.top
        &&& -COORD_LIMIT <= self.left
        &&& self.right <= COORD_LIMIT
        &&& -COORD_LIMIT <= self.bottom
        &&& self.top <= COORD_LIMIT
    }

    /// The rectangle translated by a displacement, as a spec value.
    pub open spec fn spec_translated(self, d: Vec2) -> Rect {
        Rect {
            left: (self.left + d.x) as i64,
            right: (self.right + d.x) as i64,
            bottom: (self.bottom + d.y) as i64,
            top: (self.top + d.y) as i64,
        }
    }

    /// Translate by a displacement.
    pub fn translated(&self, d: &Vec2) -> (r: Rect)
        requires
            self.wf(),
            d.in_bounds(),
        ensures
            r == self.spec_translated(*d),
            r.left == self.left + d.x,
            r.right == self.right + d.x,
            r.bottom == self.bottom + d.y,
            r.top == self.top + d.y,
    {
        Rect {
            left: self.left + d.x,
            right: self.right + d.x,
            bottom: self.bottom + d.y,
            top: self.top + d.y,
        }
    }

    /// Whether a point lies inside the rectangle, edges included.
    pub open spec fn spec_contains(self, p: Vec2) -> bool {
        self.left <= p.x <= self.right && self.bottom <= p.y <= self.top
    }

    /// Point-in-rectangle test, edges included (used by the ground probe).
    pub fn contains(&self, p: &Vec2) -> (r: bool)
        ensures
            r == self.spec_contains(*p),
    {
        self.left <= p.x && p.x <= self.right && self.bottom <= p.y && p.y <= self.top
    }
}

} // verus!
