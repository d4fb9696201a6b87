//! Integer geometry: points, sizes and axis-aligned rectangles.
//!
//! All coordinates are whole units. Rectangles are half-open on both axes: a
//! point on the right or bottom edge lies outside.

use vstd::prelude::*;

verus! {

/// Largest coordinate magnitude (and largest extent) the header supports.
/// Keeping every rectangle within this range lets all of the geometry
/// arithmetic below stay inside `i64` without overflow.
pub const COORD_LIMIT: i64 = 0x1_0000_0000;

/// An absolute position, in whole units.
#[derive(Clone, Copy, Debug, PartialEq, Eq, Structural)]
pub struct Point {
    pub x: i64,
    pub y: i64,
}

/// An offered or resolved extent, in whole units.
#[derive(Clone, Copy, Debug, PartialEq, Eq, Structural)]
pub struct Size {
    pub width: i64,
    pub height: i64,
}

impl Size {
    /// A size is well formed when both extents are non-negative and within
    /// the supported coordinate range.
    pub open spec fn wf(self) -> bool {
        &&& 0 <= self.width <= COORD_LIMIT
        &&& 0 <= self.height <= COORD_LIMIT
    }
}

/// An axis-aligned rectangle: top-left corner plus extents.
#[derive(Clone, Copy, Debug, PartialEq, Eq, Structural)]
pub struct Rect {
    pub x: i64,
    pub y: i64,
    pub width: i64,
    pub height: i64,
}

impl Rect {
    /// A rectangle is well formed when its corner lies within the supported
    /// coordinate range and its extents are non-negative and bounded.
    pub open spec fn wf(self) -> bool {
        &&& -COORD_LIMIT <= self.x <= COORD_LIMIT
        &&& -COORD_LIMIT <= self.y <= COORD_LIMIT
        &&& 0 <= self.width <= COORD_LIMIT
        &&& 0 <= self.height <= COORD_LIMIT
    }

    /// The right and bottom edges can be computed in `i64` without overflow.
    /// Weaker than `wf`: it also holds of derived rectangles (buttons, the
    /// border strip) whose corner may lie outside the `wf` range.
    pub open spec fn edges_fit(self) -> bool {
        &&& i64::MIN <= self.x + self.width <= i64::MAX
        &&& i64::MIN <= self.y + self.height <= i64::MAX
    }

    /// Membership in the half-open rectangle.
    pub open spec fn spec_contains(self, p: Point) -> bool {
        &&& self.x <= p.x < self.x + self.width
        &&& self.y <= p.y < self.y + self.height
    }

    /// Whether `p` lies inside this rectangle.
    pub fn contains(&self, p: Point) -> (r: bool)
        requires
            self.edges_fit(),
        ensures
            r == self.spec_contains(p),
    {
        p.x >= self.x && p.x < self.x + self.width && p.y >= self.y && p.y < self.y + self.height
    }
}

} // verus!
