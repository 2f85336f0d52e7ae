//! Plain world coordinates and the range metric used for interaction
//! and movement decisions.

use vstd::prelude::*;

verus! {

/// A position in world coordinates. The world is a bounded grid, so both
/// axes fit comfortably in `u32`; range between two positions is the
/// Chebyshev distance (diagonal steps count as one).
#[derive(Copy, Clone, PartialEq, Eq, Structural, Hash, Debug)]
pub struct Position {
    pub x: u32,
    pub y: u32,
}

/// Absolute difference of two coordinates, as a spec-level integer.
pub open spec fn abs_diff(a: int, b: int) -> int {
    if a >= b {
        a - b
    } else {
        b - a
    }
}

/// Chebyshev distance between two positions.
pub open spec fn spec_range_between(a: Position, b: Position) -> int {
    let dx = abs_diff(a.x as int, b.x as int);
    let dy = abs_diff(a.y as int, b.y as int);
    if dx >= dy {
        dx
    } else {
        dy
    }
}

impl Position {
    /// Range (Chebyshev distance) from this position to `other`.
    pub fn range_to(&self, other: Position) -> (r: u32)
        ensures
            r == spec_range_between(*self, other),
    {
        let dx: u32 = if self.x >= other.x {
            self.x - other.x
        } else {
            other.x - self.x
        };
        let dy: u32 = if self.y >= other.y {
            self.y - other.y
        } else {
            other.y - self.y
        };
        if dx >= dy {
            dx
        } else {
            dy
        }
    }

    /// Whether `other` lies within `range` of this position.
    pub fn in_range_of(&self, other: Position, range: u32) -> (r: bool)
        ensures
            r == (spec_range_between(*self, other) <= range),
    {
        self.range_to(other) <= range
    }
}

} // verus!
