use vstd::prelude::*;
use crate::heading::ArrowPresses;
use crate::heading::Heading;
use crate::heading::change_heading;
use crate::heading::next_heading;

verus! {

/// Side of one grid cell, in world units; the head slides by exactly one
/// cell per tick. The head and food squares have this side too.
pub const STEP: i64 = 20;

/// A point in the game world. The game plays on the x/y plane; z only
/// carries the drawing layer and is never changed by a tick.
#[derive(Clone, Copy, Debug, PartialEq, Eq, Structural)]
pub struct Position {
    pub x: i64,
    pub y: i64,
    pub z: i64,
}

/// The mathematical shadow of a `Position`, over unbounded integers, so
/// that motion can be reasoned about with no wraparound at the machine
/// word's edge.
pub ghost struct Point {
    pub x: int,
    pub y: int,
    pub z: int,
}

impl View for Position {
    type V = Point;

    open spec fn view(&self) -> Point {
        Point { x: self.x as int, y: self.y as int, z: self.z as int }
    }
}

/// Where a point ends up after one step along heading `h`.
pub open spec fn step_point(p: Point, h: Heading) -> Point {
    match h {
        Heading::Up => Point { x: p.x, y: p.y + STEP, z: p.z },
        Heading::Down => Point { x: p.x, y: p.y - STEP, z: p.z },
        Heading::Right => Point { x: p.x + STEP, y: p.y, z: p.z },
        Heading::Left => Point { x: p.x - STEP, y: p.y, z: p.z },
    }
}

/// True when one more step from `p` stays representable in machine
/// integers, whatever the heading.
pub open spec fn can_step(p: Point) -> bool {
    &&& i64::MIN + STEP <= p.x <= i64::MAX - STEP
    &&& i64::MIN + STEP <= p.y <= i64::MAX - STEP
}

/// Slide a position one grid cell along heading `h`. The motion is
/// unconditional: no bound of a window, no collision, no wraparound.
pub fn move_head(p: Position, h: Heading) -> (q: Position)
    requires
        can_step(p@),
    ensures
        q@ == step_point(p@, h),
        h == Heading::Up ==> q.x == p.x && q.y == p.y + STEP && q.z == p.z,
        h == Heading::Down ==> q.x == p.x && q.y == p.y - STEP && q.z == p.z,
        h == Heading::Right ==> q.x == p.x + STEP && q.y == p.y && q.z == p.z,
        h == Heading::Left ==> q.x == p.x - STEP && q.y == p.y && q.z == p.z,
{
    match h {
        Heading::Up => Position { x: p.x, y: p.y + STEP, z: p.z },
        Heading::Down => Position { x: p.x, y: p.y - STEP, z: p.z },
        Heading::Right => Position { x: p.x + STEP, y: p.y, z: p.z },
        Heading::Left => Position { x: p.x - STEP, y: p.y, z: p.z },
    }
}

/// The whole game: one head, one food marker, the current heading.
#[derive(Clone, Copy, Debug, PartialEq, Eq, Structural)]
pub struct GameState {
    pub head: Position,
    pub food: Position,
    pub heading: Heading,
}

/// The mathematical shadow of a `GameState`.
pub ghost struct World {
    pub head: Point,
    pub food: Point,
    pub heading: Heading,
}

impl View for GameState {
    type V = World;

    open spec fn view(&self) -> World {
        World { head: self.head@, food: self.food@, heading: self.heading }
    }
}

/// The world right after setup: head and food both on the origin, one
/// layer above the background, heading up.
pub open spec fn initial_world() -> World {
    World {
        head: Point { x: 0, y: 0, z: 1 },
        food: Point { x: 0, y: 0, z: 1 },
        heading: Heading::Up,
    }
}

/// One tick of the world: steer by this tick's presses, then slide the
/// head one cell along the new heading. The food is never touched.
pub open spec fn tick_world(w: World, keys: ArrowPresses) -> World {
    let h = next_heading(w.heading, keys);
    World { head: step_point(w.head, h), food: w.food, heading: h }
}

/// The world after a whole run: one tick per element of `inputs`, each
/// element holding the keys pressed during that tick.
pub open spec fn run_world(w: World, inputs: Seq<ArrowPresses>) -> World
    decreases inputs.len(),
{
    if inputs.len() == 0 {
        w
    } else {
        tick_world(run_world(w, inputs.drop_last()), inputs.last())
    }
}

impl GameState {
    /// A fresh game, as setup leaves it.
    pub fn new() -> (s: GameState)
        ensures
            s@ == initial_world(),
    {
        GameState {
            head: Position { x: 0, y: 0, z: 1 },
            food: Position { x: 0, y: 0, z: 1 },
            heading: Heading::Up,
        }
    }

    /// One pass of the update loop: take this tick's key presses into the
    /// heading, then slide the head one cell along it. The food stays
    /// exactly where it was.
    pub fn tick(&mut self, keys: ArrowPresses)
        requires
            can_step(old(self).head@),
        ensures
            final(self)@ == tick_world(old(self)@, keys),
            final(self).food == old(self).food,
    {
        self.heading = change_heading(self.heading, keys);
        self.head = move_head(self.head, self.heading);
    }
}

/// However the game is steered, the food marker never moves: no tick
/// touches it after setup.
pub proof fn lemma_food_is_fixed(w: World, inputs: Seq<ArrowPresses>)
    ensures
        run_world(w, inputs).food == w.food,
    decreases inputs.len(),
{
    if inputs.len() > 0 {
        lemma_food_is_fixed(w, inputs.drop_last());
    }
}

/// The head is unbounded: over a run whose key presses never change the
/// heading (none pressed, or only the current direction re-pressed), the
/// offset from the start is the number of ticks times one grid step
/// along the heading's axis, with no clamping.
pub proof fn lemma_steady_run_is_linear(w: World, inputs: Seq<ArrowPresses>)
    requires
        forall|i: int| 0 <= i < inputs.len() ==> next_heading(w.heading, #[trigger] inputs[i])
            == w.heading,
    ensures
        run_world(w, inputs).heading == w.heading,
        run_world(w, inputs).food == w.food,
        run_world(w, inputs).head.z == w.head.z,
        w.heading == Heading::Up ==> run_world(w, inputs).head.x == w.head.x
            && run_world(w, inputs).head.y == w.head.y + inputs.len() * STEP,
        w.heading == Heading::Down ==> run_world(w, inputs).head.x == w.head.x
            && run_world(w, inputs).head.y == w.head.y - inputs.len() * STEP,
        w.heading == Heading::Right ==> run_world(w, inputs).head.y == w.head.y
            && run_world(w, inputs).head.x == w.head.x + inputs.len() * STEP,
        w.heading == Heading::Left ==> run_world(w, inputs).head.y == w.head.y
            && run_world(w, inputs).head.x == w.head.x - inputs.len() * STEP,
    decreases inputs.len(),
{
    if inputs.len() > 0 {
        lemma_steady_run_is_linear(w, inputs.drop_last());
    }
}

/// A game nobody steers drifts straight up: after any number of ticks
/// with no key pressed the head sits one grid step per tick above the
/// origin, still on its drawing layer.
pub proof fn lemma_untouched_game_drifts_up(inputs: Seq<ArrowPresses>)
    requires
        forall|i: int| 0 <= i < inputs.len() ==> (#[trigger] inputs[i]).is_idle(),
    ensures
        run_world(initial_world(), inputs).head == (Point {
            x: 0,
            y: inputs.len() * STEP,
            z: 1,
        }),
        run_world(initial_world(), inputs).heading == Heading::Up,
{
    assert forall|i: int| 0 <= i < inputs.len() implies next_heading(
        initial_world().heading,
        #[trigger] inputs[i],
    ) == initial_world().heading by {
        assert(inputs[i].is_idle());
    }
    lemma_steady_run_is_linear(initial_world(), inputs);
}

} // verus!
