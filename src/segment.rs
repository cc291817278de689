//! A piece of the snake: a straight line or a turn.
use vstd::prelude::*;

use crate::consts::COORD_LIMIT;
use crate::coords::Coords;
use crate::direction::Direction;
use crate::line::Line;
use crate::rect::Rect;
use crate::turn::Turn;

verus! {

/// A piece of the snake's body.
#[derive(PartialEq, Eq, Structural, Clone, Copy, Debug)]
pub enum Segment {
    Line(Line),
    Turn(Turn),
}

impl Segment {
    pub open spec fn wf(self) -> bool {
        match self {
            Segment::Line(l) => l.wf(),
            Segment::Turn(t) => t.wf(),
        }
    }

    /// Length of the segment along the snake.
    pub open spec fn spec_len(self) -> int {
        match self {
            Segment::Line(l) => l.spec_size(),
            Segment::Turn(t) => t.progress as int,
        }
    }

    /// The head-ward end, where the next segment is attached.
    pub open spec fn spec_end(self) -> (int, int) {
        match self {
            Segment::Line(l) => (l.end.x as int, l.end.y as int),
            Segment::Turn(t) => t.spec_end(),
        }
    }

    /// The tail-ward end, where the segment is attached to the one behind it.
    pub open spec fn spec_start(self) -> (int, int) {
        match self {
            Segment::Line(l) => (l.beg.x as int, l.beg.y as int),
            Segment::Turn(t) => (t.pos.x as int, t.pos.y as int),
        }
    }

    /// The direction in which the segment is entered at its start.
    pub open spec fn start_direction(self) -> Direction {
        match self {
            Segment::Line(l) => l.dir,
            Segment::Turn(t) => t.in_dir,
        }
    }

    /// `self` is attached to `next`: it starts where `next` ends, in the
    /// direction in which `next` grows.
    pub open spec fn follows(self, next: Segment) -> bool {
        self.spec_start() == next.spec_end() && self.start_direction() == next.spec_direction()
    }

    /// `spec_end` as a point.
    pub open spec fn end_point(self) -> Coords {
        Coords { x: self.spec_end().0 as i64, y: self.spec_end().1 as i64 }
    }

    /// The direction in which the segment grows.
    pub open spec fn spec_direction(self) -> Direction {
        match self {
            Segment::Line(l) => l.dir,
            Segment::Turn(t) => t.out_dir,
        }
    }

    pub open spec fn spec_bounding_box(self) -> Rect {
        match self {
            Segment::Line(l) => l.spec_bounding_box(),
            Segment::Turn(t) => t.spec_bounding_box(),
        }
    }

    /// The segment after growing by `dist`, and the part of `dist` it did not take.
    pub open spec fn grown(self, dist: int) -> (Segment, int) {
        match self {
            Segment::Line(l) => (Segment::Line(l.grown(dist)), 0),
            Segment::Turn(t) => (Segment::Turn(t.grown(dist).0), t.grown(dist).1),
        }
    }

    /// The segment after shrinking by `dist`, and the part of `dist` beyond its length.
    pub open spec fn shrunk(self, dist: int) -> (Segment, int) {
        match self {
            Segment::Line(l) => (Segment::Line(l.shrunk(dist).0), l.shrunk(dist).1),
            Segment::Turn(t) => (Segment::Turn(t.shrunk(dist).0), t.shrunk(dist).1),
        }
    }

    /// Extend the segment at its head by `dist`; return the part of `dist`
    /// that it could not take (a line takes all of it, a turn at most what
    /// completes its quarter).
    pub fn grow(&mut self, dist: i64) -> (left: i64)
        requires
            old(self).wf(),
            0 <= dist,
            old(self).spec_end().0 + dist <= COORD_LIMIT,
            old(self).spec_end().0 - dist >= -COORD_LIMIT,
            old(self).spec_end().1 + dist <= COORD_LIMIT,
            old(self).spec_end().1 - dist >= -COORD_LIMIT,
        ensures
            final(self).wf(),
            (*final(self), left as int) == old(self).grown(dist as int),
            0 <= left <= dist,
            final(self).spec_start() == old(self).spec_start(),
            final(self).start_direction() == old(self).start_direction(),
            final(self).spec_len() == old(self).spec_len() + dist - left,
            final(self).spec_direction() == old(self).spec_direction(),
            match *old(self) {
                Segment::Line(l) => {
                    &&& left == 0
                    &&& *final(self) == Segment::Line(Line { end: final(self)->Line_0.end, ..l })
                    &&& final(self).spec_end() == l.end.moved(l.dir, dist as int)
                },
                Segment::Turn(t) => *final(self) == Segment::Turn(t.grown(dist as int).0)
                    && left == t.grown(dist as int).1,
            },
    {
        match self {
            Segment::Line(l) => l.grow(dist),
            Segment::Turn(t) => t.grow(dist),
        }
    }

    /// Retract the segment at its tail by `dist`, or by its whole length if
    /// that is less; return the part of `dist` that it could not take.
    pub fn shrink(&mut self, dist: i64) -> (left: i64)
        requires
            old(self).wf(),
            0 <= dist,
        ensures
            final(self).wf(),
            (*final(self), left as int) == old(self).shrunk(dist as int),
            left == if dist > old(self).spec_len() {
                dist - old(self).spec_len()
            } else {
                0
            },
            final(self).spec_len() == old(self).spec_len() - (dist - left),
            final(self).spec_end() == old(self).spec_end(),
            final(self).spec_direction() == old(self).spec_direction(),
    {
        match self {
            Segment::Line(l) => l.shrink(dist),
            Segment::Turn(t) => t.shrink(dist),
        }
    }

    pub fn end(&self) -> (r: Coords)
        requires
            self.wf(),
        ensures
            (r.x as int, r.y as int) == self.spec_end(),
            r == self.end_point(),
            r.within(COORD_LIMIT as int),
    {
        match self {
            Segment::Line(l) => l.end,
            Segment::Turn(t) => t.end(),
        }
    }

    pub fn direction(&self) -> (r: Direction)
        ensures
            r == self.spec_direction(),
    {
        match self {
            Segment::Line(l) => l.dir,
            Segment::Turn(t) => t.out_dir,
        }
    }

    pub fn bounding_box(&self) -> (r: Rect)
        requires
            self.wf(),
        ensures
            r == self.spec_bounding_box(),
            r.wf(),
    {
        match self {
            Segment::Line(l) => l.bounding_box(),
            Segment::Turn(t) => t.bounding_box(),
        }
    }

    /// Whether the segment's bounding box collides with `other`.
    pub fn collision(&self, other: &Rect) -> (r: bool)
        requires
            self.wf(),
            other.wf(),
        ensures
            r == self.spec_bounding_box().spec_collides(*other),
    {
        self.bounding_box().collision(other)
    }
}

} // verus!
