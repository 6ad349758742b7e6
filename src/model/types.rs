use vstd::prelude::*;

verus! {

/// One of the four cardinal directions a held key can stand for.
#[derive(Debug, Clone, Copy, PartialEq, Eq, Hash, Structural)]
pub enum Direction {
    Up,
    Down,
    Left,
    Right,
}

impl Direction {
    /// The unit vector of the direction in screen coordinates (y grows downwards).
    pub open spec fn unit(self) -> (int, int) {
        match self {
            Direction::Up => (0, -1),
            Direction::Down => (0, 1),
            Direction::Left => (-1, 0),
            Direction::Right => (1, 0),
        }
    }

    /// The components of the direction's unit vector.
    pub fn unit_components(&self) -> (r: (i8, i8))
        ensures
            (r.0 as int, r.1 as int) == self.unit(),
    {
        match self {
            Direction::Up => (0, -1),
            Direction::Down => (0, 1),
            Direction::Left => (-1, 0),
            Direction::Right => (1, 0),
        }
    }
}

} // verus!
