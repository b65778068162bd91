//! Axis-aligned rectangles, held as a center and two half-extents.

use vstd::prelude::*;
use crate::fixed::{axis_overlap, greater, intervals_meet, lesser};
use crate::vec2::Vec2;

verus! {

/// An axis-aligned rectangle. It reaches `half_extents.x` to the left and to
/// the right of its center, and `half_extents.y` above and below it.
#[derive(Clone, Copy, Debug, PartialEq, Eq, Structural)]
pub struct Rect {
    pub center_position: Vec2,
    pub half_extents: Vec2,
}

impl Rect {
    /// A rectangle is well formed when neither half-extent is negative.
    pub open spec fn wf(self) -> bool {
        self.half_extents.x >= 0 && self.half_extents.y >= 0
    }

    /// The x coordinate of the left edge.
    pub open spec fn min_x(self) -> int {
        self.center_position.x - self.half_extents.x
    }

    /// The x coordinate of the right edge.
    pub open spec fn max_x(self) -> int {
        self.center_position.x + self.half_extents.x
    }

    /// The y coordinate of the top edge.
    pub open spec fn min_y(self) -> int {
        self.center_position.y - self.half_extents.y
    }

    /// The y coordinate of the bottom edge.
    pub open spec fn max_y(self) -> int {
        self.center_position.y + self.half_extents.y
    }

    /// Two rectangles overlap when, on each axis, their centers are no
    /// further apart than the sum of their half-extents. Rectangles that
    /// only touch overlap.
    pub open spec fn overlaps(self, other: Rect) -> bool {
        &&& axis_overlap(
            self.center_position.x as int,
            self.half_extents.x as int,
            other.center_position.x as int,
            other.half_extents.x as int,
        )
        &&& axis_overlap(
            self.center_position.y as int,
            self.half_extents.y as int,
            other.center_position.y as int,
            other.half_extents.y as int,
        )
    }

    /// The rectangle between two corner points, given in any order. Its
    /// half-extents are half the distances between the points, rounded down
    /// to a whole world unit, and its center lies that far from the smaller
    /// coordinates.
    pub open spec fn spanning(point1: Vec2, point2: Vec2) -> Rect {
        let low = point1.lower(point2);
        let high = point1.upper(point2);
        let half_x = (high.x - low.x) / 2;
        let half_y = (high.y - low.y) / 2;
        Rect {
            center_position: Vec2 { x: (low.x + half_x) as i64, y: (low.y + half_y) as i64 },
            half_extents: Vec2 { x: half_x as i64, y: half_y as i64 },
        }
    }

    /// The rectangle around `center_position` that reaches `half_extents`
    /// to either side.
    pub fn new(center_position: Vec2, half_extents: Vec2) -> (r: Rect)
        requires
            half_extents.x >= 0,
            half_extents.y >= 0,
        ensures
            r.center_position == center_position,
            r.half_extents == half_extents,
            r.wf(),
    {
        Rect { center_position, half_extents }
    }

    /// Builds the rectangle between two corner points, given in any order.
    /// It begins at the smaller coordinates of the two points. It ends at the
    /// larger ones, or one world unit before them on an axis on which the
    /// points are an odd number of units apart.
    pub fn from_points(point1: Vec2, point2: Vec2) -> (r: Rect)
        ensures
            r == Rect::spanning(point1, point2),
            r.wf(),
            r.min_x() == lesser(point1.x as int, point2.x as int),
            r.min_y() == lesser(point1.y as int, point2.y as int),
            r.max_x() == greater(point1.x as int, point2.x as int) - (point1.x - point2.x) % 2,
            r.max_y() == greater(point1.y as int, point2.y as int) - (point1.y - point2.y) % 2,
    {
        let min = Vec2::min(point1, point2);
        let max = Vec2::max(point1, point2);
        let half_x: i128 = (max.x as i128 - min.x as i128) / 2;
        let half_y: i128 = (max.y as i128 - min.y as i128) / 2;
        let half_extents = Vec2 { x: half_x as i64, y: half_y as i64 };
        let center = Vec2 { x: (min.x as i128 + half_x) as i64, y: (min.y as i128 + half_y) as i64 };
        Rect { center_position: center, half_extents }
    }

    /// The width and the height: twice the half-extents.
    pub fn extents(&self) -> (v: Vec2)
        ensures
            v == self.half_extents.plus(self.half_extents),
    {
        self.half_extents.saturating_add(self.half_extents)
    }

    /// The corner with the smallest coordinates.
    pub fn min_point(&self) -> (v: Vec2)
        ensures
            v == self.center_position.minus(self.half_extents),
    {
        self.center_position.saturating_sub(self.half_extents)
    }

    /// The corner with the largest coordinates.
    pub fn max_point(&self) -> (v: Vec2)
        ensures
            v == self.center_position.plus(self.half_extents),
    {
        self.center_position.saturating_add(self.half_extents)
    }

    /// Tests whether this rectangle and `rect2` overlap.
    pub fn do_rectangles_collide(&self, rect2: Rect) -> (b: bool)
        ensures
            b == self.overlaps(rect2),
    {
        intervals_meet(
            self.center_position.x,
            self.half_extents.x,
            rect2.center_position.x,
            rect2.half_extents.x,
        ) && intervals_meet(
            self.center_position.y,
            self.half_extents.y,
            rect2.center_position.y,
            rect2.half_extents.y,
        )
    }
}

/// Overlap is symmetric: whether `a` overlaps `b` does not depend on which of
/// the two is asked.
pub proof fn lemma_overlaps_symmetric(a: Rect, b: Rect)
    ensures
        a.overlaps(b) == b.overlaps(a),
{
}

/// A well-formed rectangle overlaps itself.
pub proof fn lemma_overlaps_self(a: Rect)
    requires
        a.wf(),
    ensures
        a.overlaps(a),
{
}

/// Two rectangles overlap exactly when, on each axis, neither begins after
/// the other has ended.
pub proof fn lemma_overlaps_iff_edges_interleave(a: Rect, b: Rect)
    ensures
        a.overlaps(b) <==> ({
            &&& a.min_x() <= b.max_x()
            &&& b.min_x() <= a.max_x()
            &&& a.min_y() <= b.max_y()
            &&& b.min_y() <= a.max_y()
        }),
{
}

/// Two well-formed rectangles that share an edge overlap: one ends on an
/// axis exactly where the other begins, and on the other axis neither begins
/// after the other has ended.
pub proof fn lemma_shared_edge_overlaps(a: Rect, b: Rect)
    requires
        a.wf(),
        b.wf(),
        ({
            ||| (a.max_x() == b.min_x() || b.max_x() == a.min_x()) && a.min_y() <= b.max_y()
                && b.min_y() <= a.max_y()
            ||| (a.max_y() == b.min_y() || b.max_y() == a.min_y()) && a.min_x() <= b.max_x()
                && b.min_x() <= a.max_x()
        }),
    ensures
        a.overlaps(b),
{
}

/// The rectangle between two points does not depend on the order in which
/// the points are given.
pub proof fn lemma_spanning_order_independent(point1: Vec2, point2: Vec2)
    ensures
        Rect::spanning(point1, point2) == Rect::spanning(point2, point1),
{
}

} // verus!
