//! Movement rules of the sprites: what the direction pad starts, how a
//! movement runs down, and how the animation frame advances.

use vstd::prelude::*;

verus! {

/// The reading of one axis of the direction pad.
#[derive(Clone, Copy, Debug, PartialEq, Eq, Structural)]
pub enum Tri {
    Negative,
    Zero,
    Positive,
}

impl Tri {
    /// The reading as a number: -1, 0 or 1.
    pub open spec fn signum(self) -> int {
        match self {
            Tri::Negative => -1,
            Tri::Zero => 0,
            Tri::Positive => 1,
        }
    }

    /// The reading as a number: -1, 0 or 1.
    pub fn value(self) -> (v: i16)
        ensures
            v == self.signum(),
    {
        match self {
            Tri::Negative => -1,
            Tri::Zero => 0,
            Tri::Positive => 1,
        }
    }
}

/// The direction of a movement.
#[derive(Clone, Copy, Debug, PartialEq, Eq, Structural)]
pub enum MovementType {
    Up,
    Down,
    Left,
    Right,
}

/// The side of the character that an animation shows.
#[derive(Clone, Copy, Debug, PartialEq, Eq, Structural)]
pub enum Facing {
    Front,
    Back,
    Left,
    Right,
}

impl MovementType {
    /// The change of the sprite's position in one tick, as `(dx, dy)`; the
    /// screen's `y` grows downwards.
    pub open spec fn spec_offset(self) -> (int, int) {
        match self {
            MovementType::Up => (0, -1),
            MovementType::Down => (0, 1),
            MovementType::Left => (-1, 0),
            MovementType::Right => (1, 0),
        }
    }

    /// Where a sprite at `position`, given as `(x, y)`, stands one tick later.
    pub open spec fn spec_shift(self, position: (u16, u16)) -> (int, int) {
        (position.0 + self.spec_offset().0, position.1 + self.spec_offset().1)
    }

    /// Moves a sprite's position by one tick. The position is kept in the
    /// screen's unsigned coordinates, so the step must not leave them.
    pub fn shift(self, position: (u16, u16)) -> (next: (u16, u16))
        requires
            0 <= self.spec_shift(position).0 <= u16::MAX,
            0 <= self.spec_shift(position).1 <= u16::MAX,
        ensures
            next.0 == self.spec_shift(position).0,
            next.1 == self.spec_shift(position).1,
    {
        match self {
            MovementType::Up => (position.0, position.1 - 1),
            MovementType::Down => (position.0, position.1 + 1),
            MovementType::Left => (position.0 - 1, position.1),
            MovementType::Right => (position.0 + 1, position.1),
        }
    }

    /// The animation shown while moving this way: the back when walking up,
    /// the front when walking down.
    pub open spec fn spec_facing(self) -> Facing {
        match self {
            MovementType::Up => Facing::Back,
            MovementType::Down => Facing::Front,
            MovementType::Left => Facing::Left,
            MovementType::Right => Facing::Right,
        }
    }

    /// The animation shown while moving this way.
    pub fn facing(self) -> (f: Facing)
        ensures
            f == self.spec_facing(),
    {
        match self {
            MovementType::Up => Facing::Back,
            MovementType::Down => Facing::Front,
            MovementType::Left => Facing::Left,
            MovementType::Right => Facing::Right,
        }
    }
}

/// The number of ticks left after the first one of a movement that the
/// direction pad starts.
pub const STEP: i32 = 32;

/// A movement under way: its direction and the ticks it still has to run
/// after the next one.
#[derive(Clone, Copy, Debug, PartialEq, Eq, Structural)]
pub struct Movement {
    pub tp: MovementType,
    pub step: i32,
}

impl Movement {
    /// A movement in direction `tp` with `step` further ticks to run.
    pub fn new(tp: MovementType, step: i32) -> (movement: Movement)
        ensures
            movement.tp == tp,
            movement.step == step,
    {
        Movement { tp, step }
    }

    /// The movement after one tick: over when no step was left, else the same
    /// direction with one step less.
    pub fn advance(self) -> (next: Option<Movement>)
        requires
            self.step > i32::MIN,
        ensures
            next == spec_advance(self),
    {
        if self.step == 0 {
            None
        } else {
            Some(Movement::new(self.tp, self.step - 1))
        }
    }
}

/// The movement after one tick.
pub open spec fn spec_advance(movement: Movement) -> Option<Movement> {
    if movement.step == 0 {
        None
    } else {
        Some(Movement { tp: movement.tp, step: (movement.step - 1) as i32 })
    }
}

/// The movement that the direction pad asks for: none while both axes rest;
/// the vertical axis wins over the horizontal one.
pub open spec fn requested(x: Tri, y: Tri) -> Option<MovementType> {
    match y {
        Tri::Positive => Some(MovementType::Down),
        Tri::Negative => Some(MovementType::Up),
        Tri::Zero => match x {
            Tri::Positive => Some(MovementType::Right),
            Tri::Negative => Some(MovementType::Left),
            Tri::Zero => None,
        },
    }
}

/// The movement after the direction pad was read: one under way goes on
/// untouched, and where none is, the pad may start one of `STEP` steps.
pub open spec fn spec_process(current: Option<Movement>, x: Tri, y: Tri) -> Option<Movement> {
    match current {
        Some(_) => current,
        None => match requested(x, y) {
            Some(tp) => Some(Movement { tp, step: STEP }),
            None => None,
        },
    }
}

/// Reads the direction pad for a character that walks whole moves.
pub fn process(current: Option<Movement>, x: Tri, y: Tri) -> (next: Option<Movement>)
    ensures
        next == spec_process(current, x, y),
{
    if current.is_some() {
        return current;
    }
    let mut movement: Option<Movement> = None;
    match x {
        Tri::Positive => {
            movement = Some(Movement::new(MovementType::Right, STEP));
        },
        Tri::Negative => {
            movement = Some(Movement::new(MovementType::Left, STEP));
        },
        Tri::Zero => {},
    }
    match y {
        Tri::Positive => {
            movement = Some(Movement::new(MovementType::Down, STEP));
        },
        Tri::Negative => {
            movement = Some(Movement::new(MovementType::Up, STEP));
        },
        Tri::Zero => {},
    }
    movement
}

/// The animation frame after `frame` for an animation of `sprites` sprites:
/// it counts up to one past `sprites` and then starts again at zero.
pub open spec fn spec_next_frame(frame: usize, sprites: usize) -> int {
    if frame > sprites {
        0
    } else {
        frame + 1
    }
}

/// Advances the animation frame.
pub fn next_frame(frame: usize, sprites: usize) -> (next: usize)
    requires
        spec_next_frame(frame, sprites) <= usize::MAX,
    ensures
        next == spec_next_frame(frame, sprites),
{
    if frame > sprites {
        0
    } else {
        frame + 1
    }
}

/// The side that the pressed buttons turn the character to, if any is
/// pressed: left wins over right, right over up, up over down.
pub open spec fn spec_turn(down: bool, up: bool, right: bool, left: bool) -> Option<Facing> {
    if left {
        Some(Facing::Left)
    } else if right {
        Some(Facing::Right)
    } else if up {
        Some(Facing::Back)
    } else if down {
        Some(Facing::Front)
    } else {
        None
    }
}

/// Turns a character that walks freely. `None` means that no button is
/// pressed: the character keeps its side and its animation rests.
pub fn turn(down: bool, up: bool, right: bool, left: bool) -> (facing: Option<Facing>)
    ensures
        facing == spec_turn(down, up, right, left),
{
    let mut facing: Option<Facing> = None;
    if down {
        facing = Some(Facing::Front);
    }
    if up {
        facing = Some(Facing::Back);
    }
    if right {
        facing = Some(Facing::Right);
    }
    if left {
        facing = Some(Facing::Left);
    }
    facing
}

/// Where an object fixed to the level is drawn after the direction pad was
/// read: it shifts by two pixels against the pad, sideways if the horizontal
/// axis is pressed, else up or down.
pub open spec fn spec_drift(coords: (i32, i32), x: Tri, y: Tri) -> (int, int) {
    match x {
        Tri::Negative => (coords.0 + 2, coords.1 as int),
        Tri::Positive => (coords.0 - 2, coords.1 as int),
        Tri::Zero => (coords.0 as int, coords.1 - 2 * y.signum()),
    }
}

/// Shifts an object fixed to the level against the direction pad.
pub fn drift(coords: (i32, i32), x: Tri, y: Tri) -> (next: (i32, i32))
    requires
        i32::MIN <= spec_drift(coords, x, y).0 <= i32::MAX,
        i32::MIN <= spec_drift(coords, x, y).1 <= i32::MAX,
    ensures
        next.0 == spec_drift(coords, x, y).0,
        next.1 == spec_drift(coords, x, y).1,
{
    let mut next: (i32, i32) = coords;
    match x {
        Tri::Negative => {
            next.0 = next.0 + 2;
        },
        Tri::Positive => {
            next.0 = next.0 - 2;
        },
        Tri::Zero => match y {
            Tri::Negative => {
                next.1 = next.1 + 2;
            },
            Tri::Positive => {
                next.1 = next.1 - 2;
            },
            Tri::Zero => {},
        },
    }
    next
}

/// Whether the frame with count `count` is one on which the pad is read, and
/// the count of the frame after it. Counting starts at zero; the pad is read
/// on that frame and on every fifth after it.
pub fn frame_gate(count: i32) -> (gate: (bool, i32))
    requires
        count < i32::MAX,
    ensures
        gate.0 == (count % 5 == 0),
        gate.1 == if count % 5 == 0 { 1 } else { count + 1 },
{
    if count % 5 == 0 {
        (true, 1)
    } else {
        (false, count + 1)
    }
}

} // verus!
