//! Curved segments of the snake: a quarter of a ring.
use vstd::prelude::*;

use crate::consts::{COORD_LIMIT, SNAKE_HALF_WIDTH, SNAKE_WIDTH};
use crate::coords::Coords;
use crate::direction::Direction;
use crate::rect::Rect;

verus! {

/// Curved segment of the snake, from 0 to 90 degrees of a ring.
///
/// `progress` is the length of the arc drawn so far: 0 when the turn is
/// created and `SNAKE_WIDTH` when the quarter is complete, so the drawn
/// fraction of the quarter is `progress / SNAKE_WIDTH`.
#[derive(PartialEq, Eq, Structural, Clone, Copy, Debug)]
pub struct Turn {
    pub progress: i64,
    pub is_growing: bool,
    pub pos: Coords,
    pub in_dir: Direction,
    pub out_dir: Direction,
}

impl Turn {
    /// A quarter turn between perpendicular directions, drawn up to a length
    /// in `[0, SNAKE_WIDTH]` and no longer growing once complete, whose square lies within `COORD_LIMIT`.
    pub open spec fn wf(self) -> bool {
        &&& !self.in_dir.spec_is_colinear(self.out_dir)
        &&& 0 <= self.progress <= SNAKE_WIDTH
        &&& self.progress == SNAKE_WIDTH ==> !self.is_growing
        &&& self.pos.within(COORD_LIMIT - SNAKE_WIDTH)
    }

    /// The point where the next segment is attached.
    pub open spec fn spec_end(self) -> (int, int) {
        (
            self.pos.x + (self.in_dir.dx() + self.out_dir.dx()) * SNAKE_HALF_WIDTH,
            self.pos.y + (self.in_dir.dy() + self.out_dir.dy()) * SNAKE_HALF_WIDTH,
        )
    }

    /// The turn after growing by `dist`, and the part of `dist` that it did not take.
    pub open spec fn grown(self, dist: int) -> (Turn, int) {
        if !self.is_growing || self.progress >= SNAKE_WIDTH {
            (self, dist)
        } else {
            let p = if self.progress + dist >= SNAKE_WIDTH {
                SNAKE_WIDTH as int
            } else {
                self.progress + dist
            };
            (
                Turn { progress: p as i64, is_growing: p < SNAKE_WIDTH, ..self },
                dist - (p - self.progress),
            )
        }
    }

    /// The turn after shrinking by `dist`, and the part of `dist` beyond its length.
    pub open spec fn shrunk(self, dist: int) -> (Turn, int) {
        if dist >= self.progress {
            (Turn { progress: 0, ..self }, dist - self.progress)
        } else {
            (Turn { progress: (self.progress - dist) as i64, ..self }, 0)
        }
    }

    /// The `SNAKE_WIDTH` square that holds the turn, on the side of `pos` given by `in_dir`.
    pub open spec fn spec_bounding_box(self) -> Rect {
        let (x, y) = match self.in_dir {
            Direction::Up => (self.pos.x - SNAKE_HALF_WIDTH, self.pos.y - SNAKE_WIDTH),
            Direction::Down => (self.pos.x - SNAKE_HALF_WIDTH, self.pos.y as int),
            Direction::Left => (self.pos.x - SNAKE_WIDTH, self.pos.y - SNAKE_HALF_WIDTH),
            Direction::Right => (self.pos.x as int, self.pos.y - SNAKE_HALF_WIDTH),
        };
        Rect { x: x as i64, y: y as i64, w: SNAKE_WIDTH, h: SNAKE_WIDTH }
    }

    /// Create a new `Turn` that starts on `pos` with `in_dir` and turns towards
    /// `out_dir`; nothing of it is drawn yet.
    pub fn new(pos: Coords, in_dir: Direction, out_dir: Direction) -> (r: Turn)
        ensures
            r == (Turn { progress: 0, is_growing: true, pos, in_dir, out_dir }),
    {
        Turn { progress: 0, is_growing: true, pos, in_dir, out_dir }
    }

    /// Draw `dist` more of the arc while it is growing; return what is left of
    /// `dist` once the quarter is complete, all of it if it was complete already.
    pub fn grow(&mut self, dist: i64) -> (left: i64)
        requires
            old(self).wf(),
            0 <= dist,
        ensures
            final(self).wf(),
            (*final(self), left as int) == old(self).grown(dist as int),
    {
        if !self.is_growing || self.progress >= SNAKE_WIDTH {
            return dist;
        }
        let room = SNAKE_WIDTH - self.progress;
        let left = if dist > room { dist - room } else { 0 };
        self.progress = if dist >= room { SNAKE_WIDTH } else { self.progress + dist };
        self.is_growing = self.progress < SNAKE_WIDTH;
        left
    }

    /// Remove `dist` of the arc at its tail, or all of it if that is less;
    /// return the part of `dist` that the turn could not take.
    pub fn shrink(&mut self, dist: i64) -> (left: i64)
        requires
            old(self).wf(),
            0 <= dist,
        ensures
            final(self).wf(),
            (*final(self), left as int) == old(self).shrunk(dist as int),
            left == if dist > old(self).progress {
                dist - old(self).progress
            } else {
                0
            },
            final(self).progress == old(self).progress - (dist - left),
            *final(self) == (Turn { progress: final(self).progress, ..*old(self) }),
    {
        if self.progress <= 0 {
            return dist;
        }
        let left = if dist > self.progress { dist - self.progress } else { 0 };
        self.progress = if dist >= self.progress { 0 } else { self.progress - dist };
        left
    }

    /// The point where the next segment is attached: the middle of the edge of
    /// the turn's square that faces `out_dir`.
    pub fn end(&self) -> (r: Coords)
        requires
            self.wf(),
        ensures
            (r.x as int, r.y as int) == self.spec_end(),
            r.within(COORD_LIMIT as int),
    {
        self.pos.add(self.in_dir.as_coords().scale(SNAKE_HALF_WIDTH)).add(
            self.out_dir.as_coords().scale(SNAKE_HALF_WIDTH),
        )
    }

    /// The square covered by the turn.
    pub fn bounding_box(&self) -> (r: Rect)
        requires
            self.wf(),
        ensures
            r == self.spec_bounding_box(),
            r.wf(),
    {
        let (x, y) = match self.in_dir {
            Direction::Up => (self.pos.x - SNAKE_HALF_WIDTH, self.pos.y - SNAKE_WIDTH),
            Direction::Down => (self.pos.x - SNAKE_HALF_WIDTH, self.pos.y),
            Direction::Left => (self.pos.x - SNAKE_WIDTH, self.pos.y - SNAKE_HALF_WIDTH),
            Direction::Right => (self.pos.x, self.pos.y - SNAKE_HALF_WIDTH),
        };
        Rect::new(x, y, SNAKE_WIDTH, SNAKE_WIDTH)
    }
}

/// Growing a turn never takes it back, never draws more than the whole
/// quarter, and hands back exactly what it did not draw; a complete quarter
/// stops growing, and from then on hands back every distance untouched.
pub proof fn lemma_turn_growth(t: Turn, d1: int, d2: int)
    requires
        t.wf(),
        0 <= d1,
        0 <= d2,
    ensures
        ({
            let (t1, l1) = t.grown(d1);
            &&& t1.wf()
            &&& t.progress <= t1.progress <= SNAKE_WIDTH
            &&& 0 <= l1 <= d1
            &&& t1.progress - t.progress + l1 == d1
            &&& t1.progress == SNAKE_WIDTH ==> !t1.is_growing
            &&& (t.is_growing && t.progress + d1 >= SNAKE_WIDTH) ==> t1.progress == SNAKE_WIDTH
            &&& t1.progress == SNAKE_WIDTH ==> t1.grown(d2) == (t1, d2)
        }),
{
}

/// Which quarter of a circle a turn occupies.
#[derive(PartialEq, Eq, Structural, Clone, Copy, Debug)]
pub enum TurnType {
    UpRight,
    UpLeft,
    DownRight,
    DownLeft,
}

impl TurnType {
    pub open spec fn spec_from_dirs(in_dir: Direction, out_dir: Direction) -> TurnType {
        match (in_dir, out_dir) {
            (Direction::Left, Direction::Up) | (Direction::Down, Direction::Right) => {
                TurnType::DownRight
            },
            (Direction::Down, Direction::Left) | (Direction::Right, Direction::Up) => {
                TurnType::DownLeft
            },
            (Direction::Right, Direction::Down) | (Direction::Up, Direction::Left) => {
                TurnType::UpLeft
            },
            _ => TurnType::UpRight,
        }
    }

    /// The quarter that a turn from `in_dir` to `out_dir` occupies; the two
    /// directions must be perpendicular.
    pub fn from_dirs(in_dir: &Direction, out_dir: &Direction) -> (r: TurnType)
        requires
            !in_dir.spec_is_colinear(*out_dir),
        ensures
            r == TurnType::spec_from_dirs(*in_dir, *out_dir),
    {
        match (in_dir, out_dir) {
            (Direction::Left, Direction::Up) | (Direction::Down, Direction::Right) => {
                TurnType::DownRight
            },
            (Direction::Down, Direction::Left) | (Direction::Right, Direction::Up) => {
                TurnType::DownLeft
            },
            (Direction::Right, Direction::Down) | (Direction::Up, Direction::Left) => {
                TurnType::UpLeft
            },
            _ => TurnType::UpRight,
        }
    }

    /// Start and end angle of the quarter, in degrees.
    pub fn get_arc_bounds(self) -> (r: (u32, u32))
        ensures
            r.1 == r.0 + 90,
            r.0 == match self {
                TurnType::DownLeft => 0u32,
                TurnType::DownRight => 90,
                TurnType::UpRight => 180,
                TurnType::UpLeft => 270,
            },
    {
        let from: u32 = match self {
            TurnType::DownLeft => 0,
            TurnType::DownRight => 90,
            TurnType::UpRight => 180,
            TurnType::UpLeft => 270,
        };
        (from, from + 90)
    }
}

} // verus!
