//! Axis-aligned rectangles and the collision test between them.
use vstd::prelude::*;

use crate::consts::COLLISION_AREA_MARGIN;

verus! {

/// Bound on every edge of a well-formed rectangle.
pub const RECT_LIMIT: i64 = 4_000_000_000_000;

/// An axis-aligned rectangle: top left corner `(x, y)`, width `w` and height `h`.
#[derive(PartialEq, Eq, Structural, Clone, Copy, Debug)]
pub struct Rect {
    pub x: i64,
    pub y: i64,
    pub w: i64,
    pub h: i64,
}

pub open spec fn min(a: int, b: int) -> int {
    if a < b { a } else { b }
}

pub open spec fn max(a: int, b: int) -> int {
    if a < b { b } else { a }
}

impl Rect {
    pub open spec fn spec_left(self) -> int {
        self.x as int
    }

    pub open spec fn spec_right(self) -> int {
        self.x + self.w
    }

    pub open spec fn spec_top(self) -> int {
        self.y as int
    }

    pub open spec fn spec_bottom(self) -> int {
        self.y + self.h
    }

    /// Sizes are not negative and every edge lies within `RECT_LIMIT` of the origin.
    pub open spec fn wf(self) -> bool {
        &&& 0 <= self.w
        &&& 0 <= self.h
        &&& -RECT_LIMIT <= self.x && self.x + self.w <= RECT_LIMIT
        &&& -RECT_LIMIT <= self.y && self.y + self.h <= RECT_LIMIT
    }

    /// Width of the common part of `self` and `o` (not positive when they are apart).
    pub open spec fn overlap_width(self, o: Rect) -> int {
        min(self.spec_right(), o.spec_right()) - max(self.spec_left(), o.spec_left())
    }

    /// Height of the common part of `self` and `o` (not positive when they are apart).
    pub open spec fn overlap_height(self, o: Rect) -> int {
        min(self.spec_bottom(), o.spec_bottom()) - max(self.spec_top(), o.spec_top())
    }

    /// The two rectangles share a part whose area is at least `COLLISION_AREA_MARGIN`.
    pub open spec fn spec_collides(self, o: Rect) -> bool {
        &&& self.overlap_width(o) > 0
        &&& self.overlap_height(o) > 0
        &&& self.overlap_width(o) * self.overlap_height(o) >= COLLISION_AREA_MARGIN
    }

    pub fn new(x: i64, y: i64, w: i64, h: i64) -> (r: Rect)
        ensures
            r == (Rect { x, y, w, h }),
    {
        Rect { x, y, w, h }
    }

    pub fn left(&self) -> (r: i64)
        ensures
            r == self.spec_left(),
    {
        self.x
    }

    pub fn right(&self) -> (r: i64)
        requires
            self.wf(),
        ensures
            r == self.spec_right(),
    {
        self.x + self.w
    }

    pub fn top(&self) -> (r: i64)
        ensures
            r == self.spec_top(),
    {
        self.y
    }

    pub fn bottom(&self) -> (r: i64)
        requires
            self.wf(),
        ensures
            r == self.spec_bottom(),
    {
        self.y + self.h
    }

    /// Whether `self` and `other` overlap by at least `COLLISION_AREA_MARGIN`;
    /// rectangles that only touch never collide.
    pub fn collision(&self, other: &Rect) -> (r: bool)
        requires
            self.wf(),
            other.wf(),
        ensures
            r == self.spec_collides(*other),
    {
        if self.left() >= other.right() || self.right() <= other.left() || self.top()
            >= other.bottom() || self.bottom() <= other.top() {
            return false;
        }
        let ll = if self.left() > other.left() { self.left() } else { other.left() };
        let rr = if self.right() < other.right() { self.right() } else { other.right() };
        let tt = if self.top() > other.top() { self.top() } else { other.top() };
        let bb = if self.bottom() < other.bottom() { self.bottom() } else { other.bottom() };
        let w: i64 = rr - ll;
        let h: i64 = bb - tt;
        assert(w == self.overlap_width(*other) && h == self.overlap_height(*other));
        assert(0 <= w <= 2 * RECT_LIMIT && 0 <= h <= 2 * RECT_LIMIT);
        assert(w * h <= (2 * RECT_LIMIT) * (2 * RECT_LIMIT)) by (nonlinear_arith)
            requires
                0 <= w <= 2 * RECT_LIMIT,
                0 <= h <= 2 * RECT_LIMIT,
        ;
        assert(w == 0 || h == 0 ==> w * h == 0) by (nonlinear_arith);
        let area: i128 = w as i128 * h as i128;
        area >= COLLISION_AREA_MARGIN as i128
    }
}

/// Rectangles that only share an edge, or are apart, do not collide.
pub proof fn lemma_touching_rects_do_not_collide(a: Rect, b: Rect)
    requires
        a.wf(),
        b.wf(),
        a.spec_right() <= b.spec_left() || b.spec_right() <= a.spec_left() || a.spec_bottom()
            <= b.spec_top() || b.spec_bottom() <= a.spec_top(),
    ensures
        !a.spec_collides(b),
{
}

/// Rectangles collide exactly when they overlap, and the common part has an
/// area of at least `COLLISION_AREA_MARGIN`: one of exactly that area collides,
/// one of less does not.
pub proof fn lemma_collision_threshold(a: Rect, b: Rect)
    requires
        a.wf(),
        b.wf(),
        a.overlap_width(b) > 0,
        a.overlap_height(b) > 0,
    ensures
        a.overlap_width(b) * a.overlap_height(b) == COLLISION_AREA_MARGIN ==> a.spec_collides(b),
        a.overlap_width(b) * a.overlap_height(b) < COLLISION_AREA_MARGIN ==> !a.spec_collides(b),
        a.spec_collides(b) == b.spec_collides(a),
{
    assert(a.overlap_width(b) == b.overlap_width(a));
    assert(a.overlap_height(b) == b.overlap_height(a));
}

} // verus!
