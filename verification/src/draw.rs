//! What a frame shows, as a list of commands for whatever presents it.

use vstd::prelude::*;
use crate::circle::Circle;
use crate::fixed::UNITS_PER_PIXEL;
use crate::rect::Rect;
use crate::sprite::Direction;
use crate::vec2::Vec2;

verus! {

/// The radius of the disc that marks a selected unit: five pixels.
pub const MARKER_RADIUS: i64 = 5 * UNITS_PER_PIXEL;

#[derive(Clone, Copy, Debug, PartialEq, Eq, Structural)]
pub enum Color {
    White,
    Red,
}

/// One thing to draw. Positions and sizes are in world units; `position` is
/// the corner with the smallest coordinates.
#[derive(Clone, Copy, Debug, PartialEq, Eq, Structural)]
pub enum DrawCommand {
    /// The background image, over the whole window.
    Background,
    /// A filled rectangle.
    Rectangle { position: Vec2, size: Vec2, color: Color },
    /// The outline of a rectangle. A negative width or height extends the
    /// rectangle to the left of `position` or above it.
    RectangleLines { position: Vec2, size: Vec2, color: Color },
    /// The sprite of a unit that faces in `direction`.
    Sprite { direction: Direction, position: Vec2 },
    /// A filled disc.
    Circle { center: Vec2, radius: i64, color: Color },
}

impl Rect {
    /// What `draw` shows: a white square at the corner with the smallest
    /// coordinates, as wide and as high as the rectangle is high.
    pub open spec fn drawn(self) -> DrawCommand {
        let height = self.half_extents.plus(self.half_extents).y;
        DrawCommand::Rectangle {
            position: self.center_position.minus(self.half_extents),
            size: Vec2 { x: height, y: height },
            color: Color::White,
        }
    }

    pub fn draw(&self) -> (command: DrawCommand)
        ensures
            command == self.drawn(),
    {
        DrawCommand::Rectangle {
            position: self.min_point(),
            size: Vec2::new(self.extents().y, self.extents().y),
            color: Color::White,
        }
    }
}

impl Circle {
    /// What `draw` shows: a red disc with the circle's center and radius.
    pub open spec fn drawn(self) -> DrawCommand {
        DrawCommand::Circle { center: self.center_position, radius: self.radius.x, color: Color::Red }
    }

    pub fn draw(&self) -> (command: DrawCommand)
        ensures
            command == self.drawn(),
    {
        DrawCommand::Circle { center: self.center_position, radius: self.radius.x, color: Color::Red }
    }
}

} // verus!
