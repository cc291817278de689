//! Straight segments of the snake.
use vstd::prelude::*;

use crate::consts::{COORD_LIMIT, SNAKE_HALF_WIDTH, SNAKE_WIDTH};
use crate::coords::Coords;
use crate::direction::Direction;
use crate::rect::Rect;

verus! {

/// Straight segment of the snake, drawn from `beg` towards `end` in direction `dir`.
#[derive(PartialEq, Eq, Structural, Clone, Copy, Debug)]
pub struct Line {
    pub beg: Coords,
    pub end: Coords,
    pub dir: Direction,
}

impl Line {
    /// Length of the segment, measured along `dir`.
    pub open spec fn spec_size(self) -> int {
        match self.dir {
            Direction::Up => self.beg.y - self.end.y,
            Direction::Down => self.end.y - self.beg.y,
            Direction::Left => self.beg.x - self.end.x,
            Direction::Right => self.end.x - self.beg.x,
        }
    }

    /// `end` lies ahead of `beg` in direction `dir`, on the same axis, and both
    /// lie within `COORD_LIMIT` of the origin.
    pub open spec fn wf(self) -> bool {
        &&& if self.dir.is_vertical() {
            self.beg.x == self.end.x
        } else {
            self.beg.y == self.end.y
        }
        &&& self.spec_size() >= 0
        &&& self.beg.within(COORD_LIMIT as int)
        &&& self.end.within(COORD_LIMIT as int)
    }

    /// The rectangle covered by the segment.
    pub open spec fn spec_bounding_box(self) -> Rect {
        match self.dir {
            Direction::Up => Rect {
                x: (self.end.x - SNAKE_HALF_WIDTH) as i64,
                y: self.end.y,
                w: SNAKE_WIDTH,
                h: self.spec_size() as i64,
            },
            Direction::Down => Rect {
                x: (self.end.x - SNAKE_HALF_WIDTH) as i64,
                y: self.beg.y,
                w: SNAKE_WIDTH,
                h: self.spec_size() as i64,
            },
            Direction::Left => Rect {
                x: self.end.x,
                y: (self.end.y - SNAKE_HALF_WIDTH) as i64,
                w: self.spec_size() as i64,
                h: SNAKE_WIDTH,
            },
            Direction::Right => Rect {
                x: self.beg.x,
                y: (self.end.y - SNAKE_HALF_WIDTH) as i64,
                w: self.spec_size() as i64,
                h: SNAKE_WIDTH,
            },
        }
    }

    /// The line after growing by `dist`: its end moves `dist` ahead.
    pub open spec fn grown(self, dist: int) -> Line {
        Line { end: self.end.step(self.dir, dist), ..self }
    }

    /// The line after shrinking by `dist`, and the part of `dist` beyond its
    /// length: its start moves ahead by `dist`, but not past its end.
    pub open spec fn shrunk(self, dist: int) -> (Line, int) {
        let step = if dist > self.spec_size() {
            self.spec_size()
        } else {
            dist
        };
        (
            Line { beg: self.beg.step(self.dir, step), ..self },
            dist - step,
        )
    }

    /// Create a new `Line` of length zero on `pos`, aligned in direction `dir`.
    pub fn new(pos: Coords, dir: Direction) -> (r: Line)
        ensures
            r == (Line { beg: pos, end: pos, dir }),
            r.spec_size() == 0,
    {
        Line { beg: pos, end: pos, dir }
    }

    /// Current length.
    pub fn size(&self) -> (r: i64)
        requires
            self.wf(),
        ensures
            r == self.spec_size(),
    {
        match self.dir {
            Direction::Up => self.beg.y - self.end.y,
            Direction::Down => self.end.y - self.beg.y,
            Direction::Left => self.beg.x - self.end.x,
            Direction::Right => self.end.x - self.beg.x,
        }
    }

    /// Extend the segment at its head by `dist`; a line takes any distance,
    /// so nothing is left over.
    pub fn grow(&mut self, dist: i64) -> (left: i64)
        requires
            old(self).wf(),
            0 <= dist,
            old(self).end.within(COORD_LIMIT - dist),
        ensures
            final(self).wf(),
            *final(self) == old(self).grown(dist as int),
            left == 0,
            final(self).beg == old(self).beg,
            final(self).dir == old(self).dir,
            (final(self).end.x as int, final(self).end.y as int) == old(self).end.moved(
                old(self).dir,
                dist as int,
            ),
            final(self).spec_size() == old(self).spec_size() + dist,
    {
        match self.dir {
            Direction::Up => self.end.y = self.end.y - dist,
            Direction::Down => self.end.y = self.end.y + dist,
            Direction::Left => self.end.x = self.end.x - dist,
            Direction::Right => self.end.x = self.end.x + dist,
        }
        0
    }

    /// Retract the segment at its tail by `dist`, or by its whole length if
    /// that is less; return the part of `dist` that the segment could not take.
    pub fn shrink(&mut self, dist: i64) -> (left: i64)
        requires
            old(self).wf(),
            0 <= dist,
        ensures
            final(self).wf(),
            (*final(self), left as int) == old(self).shrunk(dist as int),
            left == if dist > old(self).spec_size() {
                dist - old(self).spec_size()
            } else {
                0
            },
            final(self).end == old(self).end,
            final(self).dir == old(self).dir,
            final(self).spec_size() == old(self).spec_size() - (dist - left),
    {
        let size = self.size();
        let (left, step) = if dist > size {
            (dist - size, size)
        } else {
            (0, dist)
        };
        match self.dir {
            Direction::Up => self.beg.y = self.beg.y - step,
            Direction::Down => self.beg.y = self.beg.y + step,
            Direction::Left => self.beg.x = self.beg.x - step,
            Direction::Right => self.beg.x = self.beg.x + step,
        }
        left
    }

    /// The rectangle covered by the segment: `SNAKE_WIDTH` across, centred on
    /// the segment, and as long as the segment.
    pub fn bounding_box(&self) -> (r: Rect)
        requires
            self.wf(),
        ensures
            r == self.spec_bounding_box(),
            r.wf(),
    {
        let size = self.size();
        match self.dir {
            Direction::Up => Rect::new(self.end.x - SNAKE_HALF_WIDTH, self.end.y, SNAKE_WIDTH, size),
            Direction::Down => Rect::new(
                self.end.x - SNAKE_HALF_WIDTH,
                self.beg.y,
                SNAKE_WIDTH,
                size,
            ),
            Direction::Left => Rect::new(
                self.end.x,
                self.end.y - SNAKE_HALF_WIDTH,
                size,
                SNAKE_WIDTH,
            ),
            Direction::Right => Rect::new(
                self.beg.x,
                self.end.y - SNAKE_HALF_WIDTH,
                size,
                SNAKE_WIDTH,
            ),
        }
    }
}

} // verus!
