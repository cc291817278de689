//! Points and vectors of the plane.
use vstd::prelude::*;

use crate::direction::Direction;

verus! {

/// A point or a vector, in units of length.
#[derive(PartialEq, Eq, Structural, Clone, Copy, Debug)]
pub struct Coords {
    pub x: i64,
    pub y: i64,
}

/// Whether `v` fits in an `i64`.
pub open spec fn fits(v: int) -> bool {
    i64::MIN <= v <= i64::MAX
}

impl Coords {
    /// Both components lie within `lim` of the origin.
    pub open spec fn within(self, lim: int) -> bool {
        -lim <= self.x <= lim && -lim <= self.y <= lim
    }

    /// `self` moved by `k` in direction `d`.
    pub open spec fn moved(self, d: Direction, k: int) -> (int, int) {
        match d {
            Direction::Up => (self.x as int, self.y - k),
            Direction::Down => (self.x as int, self.y + k),
            Direction::Left => (self.x - k, self.y as int),
            Direction::Right => (self.x + k, self.y as int),
        }
    }

    /// `moved` as a point.
    pub open spec fn step(self, d: Direction, k: int) -> Coords {
        Coords { x: self.moved(d, k).0 as i64, y: self.moved(d, k).1 as i64 }
    }

    pub fn new(x: i64, y: i64) -> (r: Coords)
        ensures
            r.x == x,
            r.y == y,
    {
        Coords { x, y }
    }

    /// A point whose components are drawn independently and uniformly from
    /// `[min, max)`.
    pub fn random(min: i64, max: i64) -> (r: Coords)
        requires
            min < max,
        ensures
            min <= r.x < max,
            min <= r.y < max,
    {
        let x = random_in(min, max);
        let y = random_in(min, max);
        Coords { x, y }
    }

    /// Componentwise sum.
    pub fn add(self, other: Coords) -> (r: Coords)
        requires
            fits(self.x + other.x),
            fits(self.y + other.y),
        ensures
            r.x == self.x + other.x,
            r.y == self.y + other.y,
    {
        Coords { x: self.x + other.x, y: self.y + other.y }
    }

    /// Componentwise difference.
    pub fn sub(self, other: Coords) -> (r: Coords)
        requires
            fits(self.x - other.x),
            fits(self.y - other.y),
        ensures
            r.x == self.x - other.x,
            r.y == self.y - other.y,
    {
        Coords { x: self.x - other.x, y: self.y - other.y }
    }

    /// Both components multiplied by `k`.
    pub fn scale(self, k: i64) -> (r: Coords)
        requires
            fits(self.x * k),
            fits(self.y * k),
        ensures
            r.x == self.x * k,
            r.y == self.y * k,
    {
        Coords { x: self.x * k, y: self.y * k }
    }
}

/// Relies on rand's `Uniform::from(low..high)` and `Distribution::sample` with
/// the thread-local generator: a value drawn uniformly from the half-open
/// range `[low, high)`; `Uniform::new` panics when `low >= high`.
#[verifier::external_body]
fn random_in(low: i64, high: i64) -> (r: i64)
    requires
        low < high,
    ensures
        low <= r < high,
{
    rand::distributions::Distribution::sample(
        &rand::distributions::Uniform::from(low..high),
        &mut rand::thread_rng(),
    )
}

} // verus!
