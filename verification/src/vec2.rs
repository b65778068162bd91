//! Two-dimensional vectors of fixed-point coordinates.

use vstd::prelude::*;
use crate::fixed::{clamp_to_i64, greater, lesser, max, min, saturate, UNITS_PER_PIXEL};

verus! {

/// A point or a displacement in the plane, in world units. The x axis points
/// right and the y axis points down, as on a screen.
#[derive(Clone, Copy, Debug, PartialEq, Eq, Structural)]
pub struct Vec2 {
    pub x: i64,
    pub y: i64,
}

impl Vec2 {
    /// The vector whose two coordinates are zero.
    pub open spec fn spec_zero() -> Vec2 {
        Vec2 { x: 0, y: 0 }
    }

    /// The component-wise sum of two vectors, each coordinate kept within
    /// the range of `i64`.
    pub open spec fn plus(self, other: Vec2) -> Vec2 {
        Vec2 {
            x: clamp_to_i64(self.x + other.x) as i64,
            y: clamp_to_i64(self.y + other.y) as i64,
        }
    }

    /// The component-wise difference of two vectors, each coordinate kept
    /// within the range of `i64`.
    pub open spec fn minus(self, other: Vec2) -> Vec2 {
        Vec2 {
            x: clamp_to_i64(self.x - other.x) as i64,
            y: clamp_to_i64(self.y - other.y) as i64,
        }
    }

    /// The vector with the smaller of the two x coordinates and the smaller
    /// of the two y coordinates.
    pub open spec fn lower(self, other: Vec2) -> Vec2 {
        Vec2 {
            x: lesser(self.x as int, other.x as int) as i64,
            y: lesser(self.y as int, other.y as int) as i64,
        }
    }

    /// The vector with the larger of the two x coordinates and the larger of
    /// the two y coordinates.
    pub open spec fn upper(self, other: Vec2) -> Vec2 {
        Vec2 {
            x: greater(self.x as int, other.x as int) as i64,
            y: greater(self.y as int, other.y as int) as i64,
        }
    }

    /// The vector with the coordinates `x` and `y`, in world units.
    pub fn new(x: i64, y: i64) -> (v: Vec2)
        ensures
            v.x == x,
            v.y == y,
    {
        Vec2 { x, y }
    }

    /// The origin.
    #[verifier::when_used_as_spec(spec_zero)]
    pub fn zero() -> (v: Vec2)
        ensures
            v == Vec2::spec_zero(),
    {
        Vec2 { x: 0, y: 0 }
    }

    /// The vector that lies `x` whole pixels right of the origin and `y`
    /// whole pixels below it.
    pub fn from_pixels(x: i32, y: i32) -> (v: Vec2)
        ensures
            v.x == x * UNITS_PER_PIXEL,
            v.y == y * UNITS_PER_PIXEL,
    {
        Vec2 { x: (x as i64) * UNITS_PER_PIXEL, y: (y as i64) * UNITS_PER_PIXEL }
    }

    /// The smaller x coordinate with the smaller y coordinate.
    pub fn min(self, other: Vec2) -> (v: Vec2)
        ensures
            v == self.lower(other),
    {
        Vec2 { x: min(self.x, other.x), y: min(self.y, other.y) }
    }

    /// The larger x coordinate with the larger y coordinate.
    pub fn max(self, other: Vec2) -> (v: Vec2)
        ensures
            v == self.upper(other),
    {
        Vec2 { x: max(self.x, other.x), y: max(self.y, other.y) }
    }

    /// Adds coordinate by coordinate, saturating at the ends of the range.
    pub fn saturating_add(self, other: Vec2) -> (v: Vec2)
        ensures
            v == self.plus(other),
    {
        Vec2 {
            x: saturate(self.x as i128 + other.x as i128),
            y: saturate(self.y as i128 + other.y as i128),
        }
    }

    /// Subtracts coordinate by coordinate, saturating at the ends of the
    /// range.
    pub fn saturating_sub(self, other: Vec2) -> (v: Vec2)
        ensures
            v == self.minus(other),
    {
        Vec2 {
            x: saturate(self.x as i128 - other.x as i128),
            y: saturate(self.y as i128 - other.y as i128),
        }
    }
}

} // verus!
