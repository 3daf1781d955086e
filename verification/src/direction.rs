use vstd::prelude::*;

verus! {

/// A facing / movement direction. `Still` is the idle, down-facing default;
/// it drives sprite selection only and is never a movement input.
#[derive(Clone, Copy, Debug, PartialEq, Eq, Structural)]
pub enum Direction {
    Still,
    Up,
    Down,
    Left,
    Right,
}

impl Direction {
    /// True for the four cardinal directions, which are the only legal
    /// movement inputs.
    pub open spec fn is_cardinal(self) -> bool {
        self != Direction::Still
    }

    /// Horizontal component of the unit step for this direction.
    pub open spec fn dx(self) -> int {
        match self {
            Direction::Left => -1,
            Direction::Right => 1,
            _ => 0,
        }
    }

    /// Vertical component of the unit step for this direction
    /// (screen convention: `Up` decreases `y`, `Down` increases it).
    pub open spec fn dy(self) -> int {
        match self {
            Direction::Up => -1,
            Direction::Down => 1,
            _ => 0,
        }
    }

    /// The unit step as executable values.
    pub fn delta(self) -> (d: (i32, i32))
        ensures
            d.0 == self.dx(),
            d.1 == self.dy(),
    {
        match self {
            Direction::Still => (0, 0),
            Direction::Up => (0, -1),
            Direction::Down => (0, 1),
            Direction::Left => (-1, 0),
            Direction::Right => (1, 0),
        }
    }
}

} // verus!
