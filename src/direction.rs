//! The four directions of movement.
use vstd::prelude::*;

use crate::coords::Coords;

verus! {

/// One of the four main directions; `Up` points to smaller `y`.
#[derive(PartialEq, Eq, Structural, Clone, Copy, Debug)]
pub enum Direction {
    Up,
    Down,
    Left,
    Right,
}

impl Direction {
    /// `x` component of the unit vector of `self`.
    pub open spec fn dx(self) -> int {
        match self {
            Direction::Left => -1,
            Direction::Right => 1,
            _ => 0,
        }
    }

    /// `y` component of the unit vector of `self`.
    pub open spec fn dy(self) -> int {
        match self {
            Direction::Up => -1,
            Direction::Down => 1,
            _ => 0,
        }
    }

    /// Whether `self` moves along the `y` axis.
    pub open spec fn is_vertical(self) -> bool {
        self == Direction::Up || self == Direction::Down
    }

    pub open spec fn spec_inverse(self) -> Direction {
        match self {
            Direction::Up => Direction::Down,
            Direction::Down => Direction::Up,
            Direction::Left => Direction::Right,
            Direction::Right => Direction::Left,
        }
    }

    /// Whether `self` and `other` lie on the same axis.
    pub open spec fn spec_is_colinear(self, other: Direction) -> bool {
        self.is_vertical() == other.is_vertical()
    }

    /// Check if `self` and `other` are colinear, i.e. on the same axis (X/Y).
    pub fn is_colinear(&self, other: Self) -> (r: bool)
        ensures
            r == self.spec_is_colinear(other),
    {
        match self {
            Direction::Up | Direction::Down => matches!(other, Direction::Up | Direction::Down),
            Direction::Left | Direction::Right => matches!(other, Direction::Left | Direction::Right),
        }
    }

    /// The opposite direction.
    pub fn inverse(&self) -> (r: Direction)
        ensures
            r == self.spec_inverse(),
    {
        match self {
            Direction::Up => Direction::Down,
            Direction::Down => Direction::Up,
            Direction::Left => Direction::Right,
            Direction::Right => Direction::Left,
        }
    }

    /// The direction as a unit vector.
    pub fn as_coords(&self) -> (r: Coords)
        ensures
            r.x == self.dx(),
            r.y == self.dy(),
    {
        match self {
            Direction::Up => Coords::new(0, -1),
            Direction::Down => Coords::new(0, 1),
            Direction::Left => Coords::new(-1, 0),
            Direction::Right => Coords::new(1, 0),
        }
    }
}

/// Turning around twice gives the direction back, a direction is colinear
/// with itself and its inverse, and colinearity is symmetric.
pub proof fn lemma_direction_laws(d: Direction, e: Direction)
    ensures
        d.spec_inverse().spec_inverse() == d,
        d.spec_is_colinear(d),
        d.spec_is_colinear(d.spec_inverse()),
        d.spec_inverse() != d,
        d.spec_is_colinear(e) == e.spec_is_colinear(d),
        Direction::Up.spec_is_colinear(Direction::Down),
        !Direction::Up.spec_is_colinear(Direction::Left),
{
}

} // verus!
