//! From what the pointer and the keyboard did in a frame to the one event
//! that the units see.

use vstd::prelude::*;
use crate::draw::{Color, DrawCommand};
use crate::rect::Rect;
use crate::tank::MouseEvent;
use crate::vec2::Vec2;

verus! {

/// What was read of the pointer and the keyboard in one frame. A button or a
/// key counts as pressed, or released, only in the frame in which it went
/// down, or up.
#[derive(Clone, Copy, Debug, PartialEq, Eq, Structural)]
pub struct FrameInput {
    /// The key that spawns a unit was pressed.
    pub spawn_pressed: bool,
    pub mouse_position: Vec2,
    /// The button that selects was pressed.
    pub select_pressed: bool,
    /// The button that selects was released.
    pub select_released: bool,
    /// The button that sets a goal was pressed.
    pub goal_pressed: bool,
}

/// A selection that is being dragged: where the button went down and where
/// the pointer is now.
#[derive(Clone, Copy, Debug, PartialEq, Eq, Structural)]
pub struct RectSelect {
    pub start_point: Vec2,
    pub end_point: Vec2,
}

impl RectSelect {
    /// The rectangle between the two points of the drag.
    pub open spec fn spec_rect(&self) -> Rect {
        Rect::spanning(self.start_point, self.end_point)
    }

    /// What is drawn of a drag: the outline from its start to the pointer.
    pub open spec fn drawn(self) -> DrawCommand {
        DrawCommand::RectangleLines {
            position: self.start_point,
            size: self.end_point.minus(self.start_point),
            color: Color::White,
        }
    }

    /// The rectangle that the drag selects when it ends now.
    #[verifier::when_used_as_spec(spec_rect)]
    pub fn rect(&self) -> (r: Rect)
        ensures
            r == self.spec_rect(),
            r.wf(),
    {
        Rect::from_points(self.start_point, self.end_point)
    }

    pub fn draw(&self) -> (command: DrawCommand)
        ensures
            command == self.drawn(),
    {
        DrawCommand::RectangleLines {
            position: self.start_point,
            size: self.end_point.saturating_sub(self.start_point),
            color: Color::White,
        }
    }
}

/// The drag as it stands in this frame. A drag that was under way follows
/// the pointer. Without one, a press of the selecting button starts one at
/// the pointer.
pub open spec fn drag_in_frame(rect_select: Option<RectSelect>, input: FrameInput) -> Option<
    RectSelect,
> {
    match rect_select {
        Some(drag) => Some(
            RectSelect { start_point: drag.start_point, end_point: input.mouse_position },
        ),
        None => if input.select_pressed {
            Some(RectSelect { start_point: input.mouse_position, end_point: input.mouse_position })
        } else {
            None
        },
    }
}

/// The event of this frame. While a drag stands, only the release of the
/// selecting button counts: it completes the selection rectangle. Without a
/// drag, a press of the other button sets a goal at the pointer.
pub open spec fn event_in_frame(rect_select: Option<RectSelect>, input: FrameInput) -> MouseEvent {
    match drag_in_frame(rect_select, input) {
        Some(drag) => if input.select_released {
            MouseEvent::DrawSelect(drag.rect())
        } else {
            MouseEvent::Idle
        },
        None => if input.goal_pressed {
            MouseEvent::SetGoal(input.mouse_position)
        } else {
            MouseEvent::Idle
        },
    }
}

/// The drag that is left for the next frame: the one of this frame, unless
/// the selecting button was released.
pub open spec fn drag_after_frame(rect_select: Option<RectSelect>, input: FrameInput) -> Option<
    RectSelect,
> {
    if input.select_released {
        None
    } else {
        drag_in_frame(rect_select, input)
    }
}

/// Turns the input of one frame into the event of that frame, and moves the
/// drag on. Returns the drag that is left for the next frame and the event.
pub fn interpret(rect_select: Option<RectSelect>, input: &FrameInput) -> (next: (
    Option<RectSelect>,
    MouseEvent,
))
    ensures
        next.0 == drag_after_frame(rect_select, *input),
        next.1 == event_in_frame(rect_select, *input),
        next.1 is DrawSelect ==> next.0 is None,
        next.1 is SetGoal ==> rect_select is None && next.0 is None,
{
    let current = match rect_select {
        Some(drag) => Some(
            RectSelect { start_point: drag.start_point, end_point: input.mouse_position },
        ),
        None => if input.select_pressed {
            Some(RectSelect { start_point: input.mouse_position, end_point: input.mouse_position })
        } else {
            None
        },
    };
    match current {
        Some(drag) => if input.select_released {
            (None, MouseEvent::DrawSelect(drag.rect()))
        } else {
            (Some(drag), MouseEvent::Idle)
        },
        None => if input.goal_pressed {
            (None, MouseEvent::SetGoal(input.mouse_position))
        } else {
            (None, MouseEvent::Idle)
        },
    }
}

} // verus!
