//! Circles, held as a center and a radius that is stored once per axis.

use vstd::prelude::*;
use crate::rect::Rect;
use crate::vec2::Vec2;

verus! {

/// A circle. The radius is stored as a vector with two equal coordinates, so
/// that it can stand where a rectangle has its half-extents.
#[derive(Clone, Copy, Debug, PartialEq, Eq, Structural)]
pub struct Circle {
    pub center_position: Vec2,
    pub radius: Vec2,
}

impl Circle {
    /// A circle is well formed when the two coordinates of its radius are
    /// equal and not negative.
    pub open spec fn wf(self) -> bool {
        self.radius.x == self.radius.y && self.radius.x >= 0
    }

    /// The square around the circle: the rectangle with the circle's center
    /// and with its radius as both half-extents.
    pub open spec fn bounding_rect(self) -> Rect {
        Rect { center_position: self.center_position, half_extents: self.radius }
    }

    /// A circle is taken to overlap a rectangle when the square around it
    /// does. For a rectangle that lies diagonally off the circle this holds
    /// although the two may have no point in common.
    pub open spec fn overlaps_rect(self, rect: Rect) -> bool {
        self.bounding_rect().overlaps(rect)
    }

    /// The circle around `center_position` with the given radius.
    pub fn new(center_position: Vec2, radius: i64) -> (c: Circle)
        requires
            radius >= 0,
        ensures
            c.center_position == center_position,
            c.radius.x == radius,
            c.radius.y == radius,
            c.wf(),
    {
        Circle { center_position, radius: Vec2::new(radius, radius) }
    }

    /// Tests whether this circle overlaps `rect`, by the square around the
    /// circle.
    pub fn does_circle_collide_rect(&self, rect: Rect) -> (b: bool)
        ensures
            b == self.overlaps_rect(rect),
    {
        let bounds = Rect { center_position: self.center_position, half_extents: self.radius };
        bounds.do_rectangles_collide(rect)
    }
}

} // verus!
