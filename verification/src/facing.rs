//! The four headings an agent can have and the quarter turns between them.

use vstd::prelude::*;

verus! {

/// One of the four cardinal headings. North points towards smaller `y`,
/// West towards smaller `x`.
#[derive(Clone, Copy, Debug, PartialEq, Eq, Structural)]
pub enum Facing {
    N,
    S,
    E,
    W,
}

/// A quarter turn to the left (counter-clockwise) or to the right (clockwise).
#[derive(Clone, Copy, Debug, PartialEq, Eq, Structural)]
pub enum Rotate {
    L,
    R,
}

impl Facing {
    /// The heading as a number of clockwise quarter turns away from North.
    pub open spec fn bearing(self) -> int {
        match self {
            Facing::N => 0,
            Facing::E => 1,
            Facing::S => 2,
            Facing::W => 3,
        }
    }

    /// The heading reached from North after `quarters` clockwise quarter turns;
    /// a negative count turns counter-clockwise.
    pub open spec fn at_bearing(quarters: int) -> Facing {
        let q = quarters % 4;
        if q == 0 {
            Facing::N
        } else if q == 1 {
            Facing::E
        } else if q == 2 {
            Facing::S
        } else {
            Facing::W
        }
    }

    /// The heading pointing the other way.
    pub open spec fn reversed(self) -> Facing {
        Facing::at_bearing(self.bearing() + 2)
    }
}

impl Rotate {
    /// The turn as a signed number of clockwise quarter turns.
    pub open spec fn quarters(self) -> int {
        match self {
            Rotate::L => -1,
            Rotate::R => 1,
        }
    }

    /// The turn that undoes this one.
    pub open spec fn inverse(self) -> Rotate {
        match self {
            Rotate::L => Rotate::R,
            Rotate::R => Rotate::L,
        }
    }
}

/// The heading that results from applying one quarter turn to `facing`.
pub open spec fn rotated(facing: Facing, direction: Rotate) -> Facing {
    Facing::at_bearing(facing.bearing() + direction.quarters())
}

/// `facing` after `count` successive applications of the same turn.
pub open spec fn rotated_times(facing: Facing, direction: Rotate, count: nat) -> Facing
    decreases count,
{
    if count == 0 {
        facing
    } else {
        rotated(rotated_times(facing, direction, (count - 1) as nat), direction)
    }
}

/// Turns `facing` by a quarter turn.
///
/// Left maps N→W, W→S, S→E, E→N; right maps N→E, E→S, S→W, W→N.
pub fn rotate(facing: Facing, direction: Rotate) -> (turned: Facing)
    ensures
        turned == rotated(facing, direction),
        turned != facing,
        turned != facing.reversed(),
{
    match direction {
        Rotate::L => match facing {
            Facing::N => Facing::W,
            Facing::E => Facing::N,
            Facing::S => Facing::E,
            Facing::W => Facing::S,
        },
        Rotate::R => match facing {
            Facing::N => Facing::E,
            Facing::E => Facing::S,
            Facing::S => Facing::W,
            Facing::W => Facing::N,
        },
    }
}

/// The complete turn table: every heading paired with its left and right
/// neighbour.
pub proof fn lemma_rotation_table()
    ensures
        rotated(Facing::N, Rotate::L) == Facing::W,
        rotated(Facing::W, Rotate::L) == Facing::S,
        rotated(Facing::S, Rotate::L) == Facing::E,
        rotated(Facing::E, Rotate::L) == Facing::N,
        rotated(Facing::N, Rotate::R) == Facing::E,
        rotated(Facing::E, Rotate::R) == Facing::S,
        rotated(Facing::S, Rotate::R) == Facing::W,
        rotated(Facing::W, Rotate::R) == Facing::N,
{
}

/// A turn followed by the opposite turn gives back the heading one started
/// with, whichever of the two comes first.
pub proof fn lemma_rotate_inverse(facing: Facing, direction: Rotate)
    ensures
        rotated(rotated(facing, direction), direction.inverse()) == facing,
        rotated(rotated(facing, Rotate::L), Rotate::R) == facing,
        rotated(rotated(facing, Rotate::R), Rotate::L) == facing,
{
}

/// Four equal quarter turns make a full circle, and no fewer do.
pub proof fn lemma_rotate_four_cycle(facing: Facing, direction: Rotate)
    ensures
        rotated_times(facing, direction, 4) == facing,
        rotated_times(facing, direction, 1) != facing,
        rotated_times(facing, direction, 2) != facing,
        rotated_times(facing, direction, 3) != facing,
        rotated(rotated(rotated(rotated(facing, direction), direction), direction), direction)
            == facing,
{
    reveal_with_fuel(rotated_times, 5);
}

/// Two equal quarter turns reverse the heading.
pub proof fn lemma_rotate_twice_reverses(facing: Facing, direction: Rotate)
    ensures
        rotated(rotated(facing, direction), direction) == facing.reversed(),
        facing.reversed().reversed() == facing,
{
}

} // verus!
