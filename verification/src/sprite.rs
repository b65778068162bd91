//! The four directional sprites of a unit: which one a velocity selects,
//! and how large each one is.

use vstd::prelude::*;
use crate::fixed::{magnitude, UNITS_PER_PIXEL};
use crate::vec2::Vec2;

verus! {

/// The direction in which a unit faces.
#[derive(Clone, Copy, Debug, PartialEq, Eq, Structural)]
pub enum Direction {
    Up,
    Down,
    Left,
    Right,
}

impl Default for Direction {
    /// A unit that moves in no direction more than in another faces up.
    fn default() -> (d: Direction)
        ensures
            d == Direction::Up,
    {
        Direction::Up
    }
}

impl Direction {
    /// The place of this direction's sprite among the four sprites of a
    /// unit, which come in the order right, down, left, up.
    pub open spec fn spec_index(self) -> usize {
        match self {
            Direction::Right => 0,
            Direction::Down => 1,
            Direction::Left => 2,
            Direction::Up => 3,
        }
    }

    #[verifier::when_used_as_spec(spec_index)]
    pub fn index(self) -> (i: usize)
        ensures
            i == self.spec_index(),
            i < 4,
    {
        match self {
            Direction::Right => 0,
            Direction::Down => 1,
            Direction::Left => 2,
            Direction::Up => 3,
        }
    }
}

/// The direction that a velocity selects. The axis on which the velocity is
/// larger in magnitude decides, and on that axis the sign: right or left on
/// the x axis, down or up on the y axis. Where the two magnitudes are equal,
/// as they are for a unit at rest, the direction is up.
pub open spec fn facing(velocity: Vec2) -> Direction {
    let speed_x = magnitude(velocity.x as int);
    let speed_y = magnitude(velocity.y as int);
    if speed_x > speed_y {
        if velocity.x > 0 {
            Direction::Right
        } else {
            Direction::Left
        }
    } else if speed_y > speed_x {
        if velocity.y > 0 {
            Direction::Down
        } else {
            Direction::Up
        }
    } else {
        Direction::Up
    }
}

/// Selects the sprite of a unit that moves with `velocity`.
pub fn get_tank_sprite(velocity: Vec2) -> (d: Direction)
    ensures
        d == facing(velocity),
        magnitude(velocity.x as int) == magnitude(velocity.y as int) ==> d == Direction::Up,
{
    let speed_x: i128 = if velocity.x < 0 {
        -(velocity.x as i128)
    } else {
        velocity.x as i128
    };
    let speed_y: i128 = if velocity.y < 0 {
        -(velocity.y as i128)
    } else {
        velocity.y as i128
    };
    if speed_x > speed_y {
        if velocity.x > 0 {
            Direction::Right
        } else {
            Direction::Left
        }
    } else if speed_y > speed_x {
        if velocity.y > 0 {
            Direction::Down
        } else {
            Direction::Up
        }
    } else {
        Direction::default()
    }
}

/// The size of a sprite, in whole pixels.
#[derive(Clone, Copy, Debug, PartialEq, Eq, Structural)]
pub struct SpriteSize {
    pub width: u32,
    pub height: u32,
}

impl SpriteSize {
    /// Half the width and half the height, in world units.
    pub open spec fn spec_half_extents(&self) -> Vec2 {
        Vec2 {
            x: (self.width * (UNITS_PER_PIXEL / 2)) as i64,
            y: (self.height * (UNITS_PER_PIXEL / 2)) as i64,
        }
    }

    #[verifier::when_used_as_spec(spec_half_extents)]
    pub fn half_extents(&self) -> (v: Vec2)
        ensures
            v == self.spec_half_extents(),
            v.x >= 0,
            v.y >= 0,
            2 * v.x == self.width * UNITS_PER_PIXEL,
            2 * v.y == self.height * UNITS_PER_PIXEL,
    {
        Vec2 {
            x: (self.width as i64) * (UNITS_PER_PIXEL / 2),
            y: (self.height as i64) * (UNITS_PER_PIXEL / 2),
        }
    }
}

/// What the simulation needs to know of the loaded images: the size of each
/// of the four sprites of a unit.
#[derive(Clone, Copy, Debug, PartialEq, Eq, Structural)]
pub struct Resources {
    pub tank_right: SpriteSize,
    pub tank_down: SpriteSize,
    pub tank_left: SpriteSize,
    pub tank_up: SpriteSize,
}

impl Resources {
    /// The size of the sprite that shows a unit facing in `direction`.
    pub open spec fn spec_sprite_size(&self, direction: Direction) -> SpriteSize {
        match direction {
            Direction::Right => self.tank_right,
            Direction::Down => self.tank_down,
            Direction::Left => self.tank_left,
            Direction::Up => self.tank_up,
        }
    }

    #[verifier::when_used_as_spec(spec_sprite_size)]
    pub fn sprite_size(&self, direction: Direction) -> (s: SpriteSize)
        ensures
            s == self.spec_sprite_size(direction),
    {
        match direction {
            Direction::Right => self.tank_right,
            Direction::Down => self.tank_down,
            Direction::Left => self.tank_left,
            Direction::Up => self.tank_up,
        }
    }
}

} // verus!
