//! A unit and the step that it takes each frame.

use vstd::prelude::*;
use crate::circle::Circle;
use crate::draw::{Color, DrawCommand, MARKER_RADIUS};
use crate::fixed::{clamp_to_i64, quotient_toward_zero, saturate, MICROS_PER_SECOND};
use crate::rect::Rect;
use crate::sprite::{facing, get_tank_sprite, Resources};
use crate::vec2::Vec2;

verus! {

/// What the pointer did in a frame, as far as the units are concerned.
#[derive(Clone, Copy, Debug, PartialEq, Eq, Structural)]
pub enum MouseEvent {
    /// A selection rectangle was completed; it is carried along.
    DrawSelect(Rect),
    /// Nothing happened.
    Idle,
    /// A goal was set at the carried position.
    SetGoal(Vec2),
}

/// A unit. A goal at the origin means that the unit has no goal.
#[derive(Clone, Copy, Debug, PartialEq, Eq, Structural)]
pub struct Tank {
    pub position: Vec2,
    /// In world units per second.
    pub velocity: Vec2,
    pub selected: bool,
    pub goal_position: Vec2,
    /// The rectangle by which the unit is selected, as of its last step.
    pub tank_hitbox: Rect,
    /// Carried along; no rule reads it yet.
    pub tank_attack_range: Circle,
}

/// The velocity of a unit at `current_position` that seeks `goal_position`:
/// the whole way from the one to the other, covered in a second. A unit
/// without a goal rests.
pub open spec fn seek_velocity(current_position: Vec2, goal_position: Vec2) -> Vec2 {
    if goal_position == Vec2::zero() {
        Vec2::zero()
    } else {
        goal_position.minus(current_position)
    }
}

/// The way covered along one axis in `deltatime` microseconds at `speed`
/// world units per second, rounded towards zero.
pub open spec fn displacement(speed: int, deltatime: int) -> int {
    quotient_toward_zero(speed * deltatime, MICROS_PER_SECOND as int)
}

/// Where a unit at `position` is after `deltatime` microseconds at
/// `velocity`.
pub open spec fn advanced(position: Vec2, velocity: Vec2, deltatime: u32) -> Vec2 {
    Vec2 {
        x: clamp_to_i64(position.x + displacement(velocity.x as int, deltatime as int)) as i64,
        y: clamp_to_i64(position.y + displacement(velocity.y as int, deltatime as int)) as i64,
    }
}

/// The velocity with which a unit at `current_position` seeks
/// `goal_position`.
pub fn get_vector_velocity(current_position: Vec2, goal_position: Vec2) -> (velocity: Vec2)
    ensures
        velocity == seek_velocity(current_position, goal_position),
{
    if goal_position.x == 0 && goal_position.y == 0 {
        return Vec2::zero();
    }
    goal_position.saturating_sub(current_position)
}

/// Moves one coordinate for `deltatime` microseconds at `speed`.
fn advance_axis(coordinate: i64, speed: i64, deltatime: u32) -> (moved: i64)
    ensures
        moved == clamp_to_i64(coordinate + displacement(speed as int, deltatime as int)),
{
    assert(-0x8000_0000_0000_0000_0000_0000 <= speed * deltatime <= 0x8000_0000_0000_0000_0000_0000)
        by (nonlinear_arith)
        requires
            -0x8000_0000_0000_0000 <= speed <= 0x8000_0000_0000_0000,
            0 <= deltatime <= 0x1_0000_0000,
    ;
    let way: i128 = (speed as i128) * (deltatime as i128) / (MICROS_PER_SECOND as i128);
    saturate(coordinate as i128 + way)
}

/// Whether `x` lies between `a` and `b`, whichever of the two is larger;
/// the ends count.
pub open spec fn between(a: int, x: int, b: int) -> bool {
    (a <= x <= b) || (b <= x <= a)
}

/// In a second a speed covers itself, in less than a second no more than
/// itself, and never a way in the opposite direction.
pub proof fn lemma_displacement_within_speed(speed: int, deltatime: int)
    requires
        0 <= deltatime <= MICROS_PER_SECOND,
    ensures
        between(0, displacement(speed, deltatime), speed),
        deltatime == MICROS_PER_SECOND ==> displacement(speed, deltatime) == speed,
{
    let second = MICROS_PER_SECOND as int;
    if speed >= 0 {
        assert(0 <= speed * deltatime <= speed * second) by (nonlinear_arith)
            requires
                0 <= speed,
                0 <= deltatime <= second,
        ;
    } else {
        assert(0 <= (-speed) * deltatime <= (-speed) * second && (-speed) * deltatime == -(speed
            * deltatime)) by (nonlinear_arith)
            requires
                0 <= -speed,
                0 <= deltatime <= second,
        ;
    }
}

/// A unit that is not selected and has a goal does not pass the goal in a
/// frame of at most a second: on each axis it ends between where it was and
/// where it is headed. A frame of exactly a second takes it to the goal, if
/// the way there fits the range of a coordinate.
pub proof fn lemma_short_frame_approaches_goal(tank: Tank, deltatime: u32, resources: Resources)
    requires
        !tank.selected,
        tank.goal_position != Vec2::zero(),
        deltatime <= MICROS_PER_SECOND,
    ensures
        ({
            let next = tank.after(deltatime, resources, MouseEvent::Idle);
            let way_x = tank.goal_position.x - tank.position.x;
            let way_y = tank.goal_position.y - tank.position.y;
            &&& between(tank.position.x as int, next.position.x as int, tank.goal_position.x as int)
            &&& between(tank.position.y as int, next.position.y as int, tank.goal_position.y as int)
            &&& deltatime == MICROS_PER_SECOND && way_x == clamp_to_i64(way_x) && way_y
                == clamp_to_i64(way_y) ==> next.position == tank.goal_position
        }),
{
    let velocity = seek_velocity(tank.position, tank.goal_position);
    lemma_displacement_within_speed(velocity.x as int, deltatime as int);
    lemma_displacement_within_speed(velocity.y as int, deltatime as int);
}

impl Tank {
    /// A unit is well formed when its hitbox and its attack range are.
    pub open spec fn wf(self) -> bool {
        self.tank_hitbox.wf() && self.tank_attack_range.wf()
    }

    /// The unit as it is created at `(x, y)`: at rest, not selected, without
    /// a goal.
    pub open spec fn spawned(x: i64, y: i64) -> Tank {
        Tank {
            position: Vec2 { x, y },
            velocity: Vec2::zero(),
            selected: false,
            goal_position: Vec2::zero(),
            tank_hitbox: Rect { center_position: Vec2::zero(), half_extents: Vec2::zero() },
            tank_attack_range: Circle { center_position: Vec2::zero(), radius: Vec2::zero() },
        }
    }

    /// The hitbox of the unit as it stands: around its position, with the
    /// half-extents of the sprite that its velocity selects.
    pub open spec fn hitbox(self, resources: Resources) -> Rect {
        Rect {
            center_position: self.position,
            half_extents: resources.sprite_size(facing(self.velocity)).half_extents(),
        }
    }

    /// The unit after one frame of `deltatime` microseconds in which
    /// `mouse_event` happened.
    ///
    /// The hitbox is first renewed from the position and velocity that the
    /// unit enters the frame with. Then the event decides. A completed
    /// selection rectangle selects the unit if the hitbox overlaps it, and
    /// never deselects. A goal is taken by a selected unit, which is thereby
    /// deselected. A frame without an event moves a unit that is not
    /// selected: its velocity becomes the whole way to its goal, and its
    /// position advances by that velocity for the length of the frame. A
    /// selected unit waits, and in a frame with an event no unit moves.
    pub open spec fn after(self, deltatime: u32, resources: Resources, mouse_event: MouseEvent) -> Tank {
        let aware = Tank { tank_hitbox: self.hitbox(resources), ..self };
        match mouse_event {
            MouseEvent::DrawSelect(rect) => Tank {
                selected: self.selected || aware.tank_hitbox.overlaps(rect),
                ..aware
            },
            MouseEvent::SetGoal(goal) => if self.selected {
                Tank { goal_position: goal, selected: false, ..aware }
            } else {
                aware
            },
            MouseEvent::Idle => if self.selected {
                aware
            } else {
                let velocity = seek_velocity(self.position, self.goal_position);
                Tank { velocity, position: advanced(self.position, velocity, deltatime), ..aware }
            },
        }
    }

    /// What `draw` shows of the unit: its sprite, centered on its position,
    /// and over it a red disc if the unit is selected.
    pub open spec fn drawn(self, resources: Resources) -> Seq<DrawCommand> {
        let direction = facing(self.velocity);
        let sprite = DrawCommand::Sprite {
            direction,
            position: self.position.minus(resources.sprite_size(direction).half_extents()),
        };
        if self.selected {
            seq![
                sprite,
                DrawCommand::Circle { center: self.position, radius: MARKER_RADIUS, color: Color::Red },
            ]
        } else {
            seq![sprite]
        }
    }

    /// Creates a unit at `(x, y)`.
    pub fn new(x: i64, y: i64) -> (tank: Tank)
        ensures
            tank == Tank::spawned(x, y),
            tank.wf(),
    {
        Tank {
            position: Vec2::new(x, y),
            velocity: Vec2::zero(),
            selected: false,
            goal_position: Vec2::zero(),
            tank_hitbox: Rect::new(Vec2::zero(), Vec2::zero()),
            tank_attack_range: Circle::new(Vec2::zero(), 0),
        }
    }

    /// Takes the unit through one frame of `deltatime` microseconds in which
    /// `mouse_event` happened.
    pub fn update(&mut self, deltatime: u32, resources: &Resources, mouse_event: MouseEvent)
        ensures
            *final(self) == old(self).after(deltatime, *resources, mouse_event),
            final(self).tank_hitbox == old(self).hitbox(*resources),
            final(self).tank_hitbox.wf(),
            old(self).wf() ==> final(self).wf(),
            !(mouse_event is Idle) || old(self).selected ==> ({
                &&& final(self).position == old(self).position
                &&& final(self).velocity == old(self).velocity
            }),
            mouse_event matches MouseEvent::DrawSelect(rect) ==> ({
                let overlapping = final(self).tank_hitbox.overlaps(rect);
                final(self).selected == (old(self).selected || overlapping)
            }),
            mouse_event matches MouseEvent::SetGoal(goal) ==> (old(self).selected ==> ({
                &&& final(self).goal_position == goal
                &&& !final(self).selected
            })),
    {
        let which_tank_sprite = get_tank_sprite(self.velocity);
        let velocity = get_vector_velocity(self.position, self.goal_position);
        let tank_half_extents = resources.sprite_size(which_tank_sprite).half_extents();
        self.tank_hitbox = Rect::new(self.position, tank_half_extents);
        match mouse_event {
            MouseEvent::DrawSelect(rect) => {
                if self.tank_hitbox.do_rectangles_collide(rect) {
                    self.selected = true;
                }
            },
            MouseEvent::SetGoal(goal) => {
                if self.selected {
                    self.goal_position = goal;
                    self.selected = false;
                }
            },
            MouseEvent::Idle => {
                if !self.selected {
                    self.velocity = velocity;
                    self.position = Vec2 {
                        x: advance_axis(self.position.x, self.velocity.x, deltatime),
                        y: advance_axis(self.position.y, self.velocity.y, deltatime),
                    };
                }
            },
        }
    }

    /// Lists what is to be drawn of the unit.
    pub fn draw(&self, resources: &Resources) -> (commands: Vec<DrawCommand>)
        ensures
            commands@ == self.drawn(*resources),
    {
        let which_tank_sprite = get_tank_sprite(self.velocity);
        let half_size = resources.sprite_size(which_tank_sprite).half_extents();
        let mut commands: Vec<DrawCommand> = Vec::new();
        commands.push(
            DrawCommand::Sprite {
                direction: which_tank_sprite,
                position: self.position.saturating_sub(half_size),
            },
        );
        if self.selected {
            commands.push(
                DrawCommand::Circle { center: self.position, radius: MARKER_RADIUS, color: Color::Red },
            );
        }
        commands
    }
}

} // verus!
