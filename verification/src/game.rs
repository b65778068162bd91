//! The session: the units, the drag that may be under way, and the step
//! that a frame takes them through.

use vstd::prelude::*;
use crate::draw::DrawCommand;
use crate::fixed::UNITS_PER_PIXEL;
use crate::input::{drag_after_frame, event_in_frame, interpret, FrameInput, RectSelect};
use crate::sprite::Resources;
use crate::tank::{MouseEvent, Tank};

verus! {

/// Where a new unit appears: 50 pixels from the left.
pub const SPAWN_X: i64 = 50 * UNITS_PER_PIXEL;

/// Where a new unit appears: 150 pixels from the top.
pub const SPAWN_Y: i64 = 150 * UNITS_PER_PIXEL;

/// The session. Units are kept in the order in which they were spawned, and
/// none is ever removed.
#[derive(Debug)]
pub struct Game {
    pub resources: Resources,
    pub tanks: Vec<Tank>,
    pub rect_select: Option<RectSelect>,
}

/// The units of a frame: those that were there, and behind them a new one
/// if the spawn key was pressed.
pub open spec fn reinforced(tanks: Seq<Tank>, input: FrameInput) -> Seq<Tank> {
    if input.spawn_pressed {
        tanks.push(Tank::spawned(SPAWN_X, SPAWN_Y))
    } else {
        tanks
    }
}

/// Every unit of `tanks` after one frame in which `mouse_event` happened.
pub open spec fn all_after(
    tanks: Seq<Tank>,
    deltatime: u32,
    resources: Resources,
    mouse_event: MouseEvent,
) -> Seq<Tank> {
    Seq::new(tanks.len(), |i: int| tanks[i].after(deltatime, resources, mouse_event))
}

/// What is drawn of the units, one after the other.
pub open spec fn all_drawn(tanks: Seq<Tank>, resources: Resources) -> Seq<DrawCommand>
    decreases tanks.len(),
{
    if tanks.len() == 0 {
        Seq::empty()
    } else {
        all_drawn(tanks.drop_last(), resources) + tanks.last().drawn(resources)
    }
}

/// Takes every unit through one frame in which `mouse_event` happened.
fn update_tanks(
    tanks: &mut Vec<Tank>,
    deltatime: u32,
    resources: &Resources,
    mouse_event: MouseEvent,
)
    ensures
        final(tanks)@ == all_after(old(tanks)@, deltatime, *resources, mouse_event),
{
    let mut i: usize = 0;
    while i < tanks.len()
        invariant
            i <= tanks.len(),
            tanks.len() == old(tanks).len(),
            forall|j: int|
                0 <= j < i ==> tanks@[j] == old(tanks)@[j].after(deltatime, *resources, mouse_event),
            forall|j: int| i <= j < tanks.len() ==> tanks@[j] == old(tanks)@[j],
        decreases tanks.len() - i,
    {
        let mut tank = tanks[i];
        tank.update(deltatime, resources, mouse_event);
        tanks[i] = tank;
        i += 1;
    }
}

/// A completed selection rectangle reaches every unit of the session alike:
/// after the frame a unit is selected exactly if it was selected before or
/// the hitbox that it enters the frame with overlaps the rectangle.
pub proof fn lemma_selection_reaches_every_unit(game: Game, deltatime: u32, input: FrameInput, i: int)
    requires
        event_in_frame(game.rect_select, input) is DrawSelect,
        0 <= i < game.tanks@.len(),
    ensures
        game.tanks_after(deltatime, input).len() == reinforced(game.tanks@, input).len(),
        game.tanks_after(deltatime, input)[i].selected == (game.tanks@[i].selected
            || game.tanks@[i].hitbox(game.resources).overlaps(
            event_in_frame(game.rect_select, input)->DrawSelect_0,
        )),
{
}

impl Game {
    /// The units after one frame of `deltatime` microseconds with `input`.
    /// The event of the frame reaches every unit alike, a unit spawned in
    /// this frame too.
    pub open spec fn tanks_after(self, deltatime: u32, input: FrameInput) -> Seq<Tank> {
        all_after(
            reinforced(self.tanks@, input),
            deltatime,
            self.resources,
            event_in_frame(self.rect_select, input),
        )
    }

    /// What `draw` shows: the background, the outline of the drag if one is
    /// under way, and the units in their order.
    pub open spec fn drawn(self) -> Seq<DrawCommand> {
        let drag = match self.rect_select {
            Some(drag) => seq![drag.drawn()],
            None => Seq::empty(),
        };
        seq![DrawCommand::Background] + drag + all_drawn(self.tanks@, self.resources)
    }

    /// A session without units and without a drag.
    pub fn new(resources: Resources) -> (game: Game)
        ensures
            game.resources == resources,
            game.tanks@ == Seq::<Tank>::empty(),
            game.rect_select is None,
    {
        Game { resources, tanks: Vec::new(), rect_select: None }
    }

    /// Takes the session through one frame of `deltatime` microseconds.
    pub fn update(&mut self, deltatime: u32, input: &FrameInput)
        ensures
            final(self).resources == old(self).resources,
            final(self).rect_select == drag_after_frame(old(self).rect_select, *input),
            final(self).tanks@ == old(self).tanks_after(deltatime, *input),
    {
        if input.spawn_pressed {
            self.tanks.push(Tank::new(SPAWN_X, SPAWN_Y));
        }
        let (rect_select, mouse_event) = interpret(self.rect_select, input);
        self.rect_select = rect_select;
        let resources = self.resources;
        update_tanks(&mut self.tanks, deltatime, &resources, mouse_event);
    }

    /// Lists what is to be drawn of the session, in the order in which it is
    /// to be drawn.
    pub fn draw(&self) -> (commands: Vec<DrawCommand>)
        ensures
            commands@ == self.drawn(),
    {
        let mut commands: Vec<DrawCommand> = Vec::new();
        commands.push(DrawCommand::Background);
        if let Some(rect_select) = &self.rect_select {
            commands.push(rect_select.draw());
        }
        let ghost before = commands@;
        let mut i: usize = 0;
        while i < self.tanks.len()
            invariant
                i <= self.tanks.len(),
                commands@ == before + all_drawn(self.tanks@.take(i as int), self.resources),
            decreases self.tanks.len() - i,
        {
            let mut of_tank = self.tanks[i].draw(&self.resources);
            proof {
                assert(self.tanks@.take(i + 1).drop_last() == self.tanks@.take(i as int));
            }
            commands.append(&mut of_tank);
            i += 1;
        }
        proof {
            assert(self.tanks@.take(i as int) == self.tanks@);
        }
        commands
    }
}

} // verus!
