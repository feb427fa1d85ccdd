use vstd::prelude::*;

verus! {

/// The direction the head travels in. There is always a heading; a fresh
/// game points up.
#[derive(Clone, Copy, Debug, PartialEq, Eq, Structural)]
pub enum Heading {
    Up,
    Down,
    Right,
    Left,
}

/// Which arrow keys were newly pressed during one tick. The keys are
/// edge-triggered: holding a key down produces no repeated press.
#[derive(Clone, Copy, Debug, PartialEq, Eq, Structural)]
pub struct ArrowPresses {
    pub up: bool,
    pub down: bool,
    pub right: bool,
    pub left: bool,
}

impl ArrowPresses {
    /// True when no arrow key was pressed this tick.
    pub open spec fn is_idle(self) -> bool {
        !self.up && !self.down && !self.right && !self.left
    }

    /// A tick during which no arrow key was pressed.
    pub fn idle() -> (r: ArrowPresses)
        ensures
            r.is_idle(),
    {
        ArrowPresses { up: false, down: false, right: false, left: false }
    }

    /// The presses produced by a single key event in direction `d`.
    pub open spec fn spec_press(d: Heading) -> ArrowPresses {
        ArrowPresses {
            up: d == Heading::Up,
            down: d == Heading::Down,
            right: d == Heading::Right,
            left: d == Heading::Left,
        }
    }

    /// Exactly one arrow key pressed, the one for direction `d`.
    pub fn press(d: Heading) -> (r: ArrowPresses)
        ensures
            r == ArrowPresses::spec_press(d),
    {
        ArrowPresses {
            up: matches!(d, Heading::Up),
            down: matches!(d, Heading::Down),
            right: matches!(d, Heading::Right),
            left: matches!(d, Heading::Left),
        }
    }
}

/// The heading after one tick's key presses are taken into account. The
/// keys are inspected in the fixed order up, down, right, left, and the
/// last pressed key inspected wins; when none was pressed the heading is
/// unchanged.
pub open spec fn next_heading(h: Heading, keys: ArrowPresses) -> Heading {
    if keys.left {
        Heading::Left
    } else if keys.right {
        Heading::Right
    } else if keys.down {
        Heading::Down
    } else if keys.up {
        Heading::Up
    } else {
        h
    }
}

/// Steer by one tick's presses: inspect the four arrow keys in the fixed
/// order up, down, right, left, the last pressed key inspected winning;
/// with no press the heading stays as it was.
pub fn change_heading(h: Heading, keys: ArrowPresses) -> (r: Heading)
    ensures
        r == next_heading(h, keys),
{
    let mut r = h;
    if keys.up {
        r = Heading::Up;
    }
    if keys.down {
        r = Heading::Down;
    }
    if keys.right {
        r = Heading::Right;
    }
    if keys.left {
        r = Heading::Left;
    }
    r
}

/// The heading after a whole sequence of single-key events, each applied
/// in turn starting from `h`.
pub open spec fn heading_after(h: Heading, events: Seq<Heading>) -> Heading
    decreases events.len(),
{
    if events.len() == 0 {
        h
    } else {
        next_heading(heading_after(h, events.drop_last()), ArrowPresses::spec_press(events.last()))
    }
}

/// After any sequence of single-key events the heading equals the
/// direction of the last event, and with no event at all it keeps its
/// starting value.
pub proof fn lemma_last_press_wins(h: Heading, events: Seq<Heading>)
    ensures
        heading_after(h, events) == if events.len() == 0 {
            h
        } else {
            events.last()
        },
{
    if events.len() > 0 {
        let keys = ArrowPresses::spec_press(events.last());
        match events.last() {
            Heading::Up => assert(next_heading(heading_after(h, events.drop_last()), keys) == Heading::Up),
            Heading::Down => assert(next_heading(heading_after(h, events.drop_last()), keys) == Heading::Down),
            Heading::Right => assert(next_heading(heading_after(h, events.drop_last()), keys) == Heading::Right),
            Heading::Left => assert(next_heading(heading_after(h, events.drop_last()), keys) == Heading::Left),
        }
    }
}

} // verus!
