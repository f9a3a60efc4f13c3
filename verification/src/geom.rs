//! Fixed-point plane geometry for frame layout.
//!
//! Coordinates are integers: one logical unit of screen space is `UNIT`
//! coordinate steps, so a step is a hundredth of a unit. This keeps all
//! rectangle algebra exact while still allowing sub-unit tolerances.

use vstd::prelude::*;

verus! {

/// One logical unit of screen space, in coordinate steps.
pub const UNIT: i64 = 100;

/// How far apart two edges may lie and still count as coinciding:
/// a tenth of a unit.
pub const EDGE_TOLERANCE: i64 = 10;

/// A point in the layout plane.
#[derive(Clone, Copy, PartialEq, Eq, Structural, Debug)]
pub struct Pos2 {
    pub x: i64,
    pub y: i64,
}

/// A 2D displacement, e.g. a per-frame scroll delta.
#[derive(Clone, Copy, PartialEq, Eq, Structural, Debug)]
pub struct Vec2 {
    pub x: i64,
    pub y: i64,
}

/// An axis-aligned rectangle given by its two corners.
#[derive(Clone, Copy, PartialEq, Eq, Structural, Debug)]
pub struct Rect {
    pub min: Pos2,
    pub max: Pos2,
}

pub open spec fn min64(a: i64, b: i64) -> i64 {
    if a <= b {
        a
    } else {
        b
    }
}

pub open spec fn max64(a: i64, b: i64) -> i64 {
    if a >= b {
        a
    } else {
        b
    }
}

/// A rectangle is well formed when it has non-negative extent on both axes.
pub open spec fn rect_wf(r: Rect) -> bool {
    r.min.x <= r.max.x && r.min.y <= r.max.y
}

/// The smallest rectangle containing both arguments.
pub open spec fn rect_union(a: Rect, b: Rect) -> Rect {
    Rect {
        min: Pos2 { x: min64(a.min.x, b.min.x), y: min64(a.min.y, b.min.y) },
        max: Pos2 { x: max64(a.max.x, b.max.x), y: max64(a.max.y, b.max.y) },
    }
}

/// `inner` lies entirely within `outer`.
pub open spec fn rect_contains(outer: Rect, inner: Rect) -> bool {
    &&& outer.min.x <= inner.min.x
    &&& outer.min.y <= inner.min.y
    &&& inner.max.x <= outer.max.x
    &&& inner.max.y <= outer.max.y
}

/// Two points coincide up to the edge tolerance: their Euclidean distance
/// is strictly below `EDGE_TOLERANCE`, stated on squares to stay integral.
pub open spec fn points_close(a: Pos2, b: Pos2) -> bool {
    (a.x - b.x) * (a.x - b.x) + (a.y - b.y) * (a.y - b.y)
        < EDGE_TOLERANCE * EDGE_TOLERANCE
}

impl Rect {
    /// The smallest rectangle containing both `self` and `other`.
    pub fn union(self, other: Rect) -> (r: Rect)
        ensures
            r == rect_union(self, other),
    {
        Rect {
            min: Pos2 {
                x: if self.min.x <= other.min.x {
                    self.min.x
                } else {
                    other.min.x
                },
                y: if self.min.y <= other.min.y {
                    self.min.y
                } else {
                    other.min.y
                },
            },
            max: Pos2 {
                x: if self.max.x >= other.max.x {
                    self.max.x
                } else {
                    other.max.x
                },
                y: if self.max.y >= other.max.y {
                    self.max.y
                } else {
                    other.max.y
                },
            },
        }
    }
}

impl Pos2 {
    /// Whether `self` and `other` coincide up to the edge tolerance.
    pub fn close_to(self, other: Pos2) -> (r: bool)
        ensures
            r == points_close(self, other),
    {
        let dx: i128 = (self.x as i128) - (other.x as i128);
        let dy: i128 = (self.y as i128) - (other.y as i128);
        if dx >= (EDGE_TOLERANCE as i128) || dx <= -(EDGE_TOLERANCE as i128)
            || dy >= (EDGE_TOLERANCE as i128) || dy <= -(EDGE_TOLERANCE as i128) {
            proof {
                assert((self.x - other.x) * (self.x - other.x) + (self.y - other.y) * (self.y
                    - other.y) >= EDGE_TOLERANCE * EDGE_TOLERANCE) by (nonlinear_arith)
                    requires
                        dx == self.x - other.x,
                        dy == self.y - other.y,
                        dx >= EDGE_TOLERANCE || dx <= -EDGE_TOLERANCE || dy >= EDGE_TOLERANCE
                            || dy <= -EDGE_TOLERANCE,
                        EDGE_TOLERANCE == 10,
                ;
            }
            false
        } else {
            proof {
                assert(dx * dx < EDGE_TOLERANCE * EDGE_TOLERANCE && dy * dy < EDGE_TOLERANCE
                    * EDGE_TOLERANCE && dx * dx >= 0 && dy * dy >= 0) by (nonlinear_arith)
                    requires
                        -EDGE_TOLERANCE < dx < EDGE_TOLERANCE,
                        -EDGE_TOLERANCE < dy < EDGE_TOLERANCE,
                        EDGE_TOLERANCE == 10,
                ;
            }
            dx * dx + dy * dy < (EDGE_TOLERANCE as i128) * (EDGE_TOLERANCE as i128)
        }
    }
}

} // verus!
