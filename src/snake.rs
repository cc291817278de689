//! The snake: a chain of segments from the head (front) to the tail (back).
use vstd::prelude::*;

use std::collections::VecDeque;

use crate::consts::{COORD_LIMIT, SCREEN_SIZE, SNAKE_START_HEIGHT, SNAKE_WIDTH, WALL_MARGIN};
use crate::coords::Coords;
use crate::direction::Direction;
use crate::line::Line;
use crate::rect::Rect;
use crate::segment::Segment;
use crate::turn::Turn;

verus! {

/// Total length of the segments of `s`.
pub open spec fn total_len(s: Seq<Segment>) -> int
    decreases s.len(),
{
    if s.len() == 0 {
        0
    } else {
        total_len(s.drop_last()) + s.last().spec_len()
    }
}

/// The length of a chain is that of its first segment plus that of the rest.
pub proof fn lemma_total_len_front(x: Segment, s: Seq<Segment>)
    ensures
        total_len(seq![x] + s) == x.spec_len() + total_len(s),
    decreases s.len(),
{
    let xs = seq![x] + s;
    if s.len() > 0 {
        assert(xs.drop_last() =~= seq![x] + s.drop_last());
        assert(xs.last() == s.last());
        lemma_total_len_front(x, s.drop_last());
    } else {
        assert(xs.drop_last() =~= Seq::<Segment>::empty());
        assert(xs.last() == x);
        assert(total_len(Seq::<Segment>::empty()) == 0);
    }
}

/// The chain `s` after its head grows by `dist` with heading `dir`: a new
/// turn from the head's direction to `dir` is put in front first if the two
/// differ; the front segment then grows, and what it cannot take goes to a
/// new line put in front of it.
pub open spec fn grown_body(s: Seq<Segment>, dir: Direction, dist: int) -> Seq<Segment> {
    let h = s[0];
    let s1 = if h.spec_direction() != dir {
        seq![
            Segment::Turn(
                Turn {
                    progress: 0,
                    is_growing: true,
                    pos: h.end_point(),
                    in_dir: h.spec_direction(),
                    out_dir: dir,
                },
            ),
        ] + s
    } else {
        s
    };
    let (f, left) = s1[0].grown(dist);
    if left > 0 {
        let l = Line { beg: f.end_point(), end: f.end_point(), dir: f.spec_direction() };
        seq![Segment::Line(l.grown(left)), f] + s1.drop_first()
    } else {
        seq![f] + s1.drop_first()
    }
}

/// The chain `s` after its tail is shrunk by `dist`: segments that `dist`
/// uses up are dropped (but never the last one left), and the next one is
/// shrunk by the rest.
pub open spec fn shrunk_body(s: Seq<Segment>, dist: int) -> Seq<Segment>
    decreases s.len(),
{
    if s.len() == 0 {
        s
    } else {
        let (b, l) = s.last().shrunk(dist);
        if l > 0 && s.len() > 1 {
            shrunk_body(s.drop_last(), l)
        } else {
            s.drop_last().push(b)
        }
    }
}

/// Shrinking by less than the length of `s` leaves a segment put in front of
/// `s` untouched.
pub proof fn lemma_shrunk_body_front(x: Segment, s: Seq<Segment>, dist: int)
    requires
        s.len() > 0,
        0 <= dist < total_len(s),
    ensures
        shrunk_body(seq![x] + s, dist) == seq![x] + shrunk_body(s, dist),
    decreases s.len(),
{
    let xs = seq![x] + s;
    assert(xs.last() == s.last());
    assert(xs.drop_last() =~= seq![x] + s.drop_last());
    let (b, l) = s.last().shrunk(dist);
    assert(total_len(s) == total_len(s.drop_last()) + s.last().spec_len());
    if l > 0 {
        if s.len() == 1 {
            assert(s.drop_last() =~= Seq::<Segment>::empty());
            assert(total_len(Seq::<Segment>::empty()) == 0);
        }
        lemma_shrunk_body_front(x, s.drop_last(), l);
    } else {
        assert(xs.drop_last().push(b) =~= seq![x] + s.drop_last().push(b));
    }
}

/// Moving a snake that is one straight line in its own heading shifts the
/// line ahead by the distance moved: it stays one line of the same length.
pub proof fn lemma_straight_move_translates(l: Line, dist: int)
    requires
        l.wf(),
        0 <= dist,
        l.end.within(COORD_LIMIT - dist),
    ensures
        shrunk_body(grown_body(seq![Segment::Line(l)], l.dir, dist), dist) == seq![
            Segment::Line(
                Line { beg: l.beg.step(l.dir, dist), end: l.end.step(l.dir, dist), dir: l.dir },
            ),
        ],
{
    let g = grown_body(seq![Segment::Line(l)], l.dir, dist);
    let m = l.grown(dist);
    assert(g =~= seq![Segment::Line(m)]);
    assert(m.spec_size() == l.spec_size() + dist);
    assert(g.drop_last() =~= Seq::<Segment>::empty());
    assert(g.last() == Segment::Line(m));
    assert(m.shrunk(dist).1 == 0);
}

/// When the heading is perpendicular to the head's direction, a move by less
/// than `SNAKE_WIDTH` (and less than the snake's length) puts in front a new
/// turn from the head's direction to the heading, drawn by exactly that
/// distance and still growing; the rest of the snake only has its tail shrunk.
pub proof fn lemma_move_starts_turn(s: Seq<Segment>, dir: Direction, dist: int)
    requires
        s.len() > 0,
        !dir.spec_is_colinear(s[0].spec_direction()),
        0 < dist < SNAKE_WIDTH,
        dist < total_len(s),
    ensures
        shrunk_body(grown_body(s, dir, dist), dist) == seq![
            Segment::Turn(
                Turn {
                    progress: dist as i64,
                    is_growing: true,
                    pos: s[0].end_point(),
                    in_dir: s[0].spec_direction(),
                    out_dir: dir,
                },
            ),
        ] + shrunk_body(s, dist),
{
    let t = Turn {
        progress: dist as i64,
        is_growing: true,
        pos: s[0].end_point(),
        in_dir: s[0].spec_direction(),
        out_dir: dir,
    };
    assert(grown_body(s, dir, dist) =~= seq![Segment::Turn(t)] + s);
    lemma_shrunk_body_front(Segment::Turn(t), s, dist);
}

/// Each segment of `s` is attached to the one behind it.
pub open spec fn connected(s: Seq<Segment>) -> bool {
    forall|i: int| 0 <= i < s.len() - 1 ==> #[trigger] s[i].follows(s[i + 1])
}

/// Putting in front of a connected chain a segment attached to its head
/// keeps it connected.
pub proof fn lemma_connected_front(x: Segment, s: Seq<Segment>)
    requires
        connected(s),
        s.len() > 0 ==> x.follows(s[0]),
    ensures
        connected(seq![x] + s),
{
    let xs = seq![x] + s;
    assert forall|i: int| 0 <= i < xs.len() - 1 implies #[trigger] xs[i].follows(xs[i + 1]) by {
        if i > 0 {
            assert(xs[i] == s[i - 1] && xs[i + 1] == s[i]);
            assert(s[i - 1].follows(s[(i - 1) + 1]));
        }
    }
}

/// Some segment of `s` has a bounding box that collides with `other`.
pub open spec fn body_collides(s: Seq<Segment>, other: Rect) -> bool {
    exists|i: int|
        0 <= i < s.len() && (#[trigger] s[i]).spec_bounding_box().spec_collides(other)
}

/// Whether the points `a` and `b` are at most `r` apart on each axis.
pub open spec fn near(a: (int, int), b: (int, int), r: int) -> bool {
    &&& a.0 - r <= b.0 <= a.0 + r
    &&& a.1 - r <= b.1 <= a.1 + r
}

/// Whether the point `p` lies within `lim` of the origin.
pub open spec fn point_within(p: (int, int), lim: int) -> bool {
    -lim <= p.0 <= lim && -lim <= p.1 <= lim
}

/// Snake: a chain of straight or curved segments, head first, and the
/// direction in which the head is to move.
pub struct Snake {
    pub body: VecDeque<Segment>,
    pub dir: Direction,
}

impl Snake {
    /// The head segment.
    pub open spec fn head(self) -> Segment {
        self.body@[0]
    }

    /// Total length of the body.
    pub open spec fn spec_len(self) -> int {
        total_len(self.body@)
    }

    /// The body has a segment, every segment is well formed and attached to
    /// the one behind it, and the heading is the head's direction or
    /// perpendicular to it.
    pub open spec fn wf(self) -> bool {
        &&& self.body@.len() > 0
        &&& forall|i: int| 0 <= i < self.body@.len() ==> #[trigger] self.body@[i].wf()
        &&& connected(self.body@)
        &&& (self.dir == self.head().spec_direction() || !self.dir.spec_is_colinear(
            self.head().spec_direction(),
        ))
    }

    /// The head may grow by `dist` without leaving `COORD_LIMIT`.
    pub open spec fn has_room(self, dist: int) -> bool {
        point_within(self.head().spec_end(), COORD_LIMIT - SNAKE_WIDTH - dist)
    }

    /// The line that a new snake centred on `(x, y)` consists of.
    pub open spec fn start_line(x: int, y: int) -> Line {
        Line {
            beg: Coords { x: x as i64, y: (y - SNAKE_START_HEIGHT / 2) as i64 },
            end: Coords { x: x as i64, y: (y + SNAKE_START_HEIGHT / 2) as i64 },
            dir: Direction::Down,
        }
    }

    /// Create a new `Snake` of the starting length centred on `(x, y)` and
    /// pointing down.
    pub fn new(x: i64, y: i64) -> (r: Snake)
        requires
            -COORD_LIMIT + SNAKE_START_HEIGHT <= x <= COORD_LIMIT - SNAKE_START_HEIGHT,
            -COORD_LIMIT + SNAKE_START_HEIGHT <= y <= COORD_LIMIT - SNAKE_START_HEIGHT,
        ensures
            r.wf(),
            r.body@ == seq![Segment::Line(Snake::start_line(x as int, y as int))],
            r.dir == Direction::Down,
            r.spec_len() == SNAKE_START_HEIGHT,
    {
        let mut body: VecDeque<Segment> = VecDeque::new();
        body.push_back(
            Segment::Line(
                Line {
                    beg: Coords::new(x, y - SNAKE_START_HEIGHT / 2),
                    end: Coords::new(x, y + SNAKE_START_HEIGHT / 2),
                    dir: Direction::Down,
                },
            ),
        );
        let r = Snake { body, dir: Direction::Down };
        proof {
            assert(r.body@.drop_last() =~= Seq::<Segment>::empty());
            assert(total_len(Seq::<Segment>::empty()) == 0);
        }
        r
    }

    /// Extend the snake by `dist` in its heading. When the heading differs
    /// from the head's direction a new turn is put at the front first; when
    /// the turn at the front completes, a new line is put in front of it and
    /// takes the rest of `dist`.
    #[verifier::rlimit(50)]
    pub fn grow(&mut self, dist: i64)
        requires
            old(self).wf(),
            0 <= dist,
            old(self).has_room(dist as int),
        ensures
            final(self).wf(),
            final(self).spec_len() == old(self).spec_len() + dist,
            final(self).dir == old(self).dir,
            final(self).head().spec_direction() == old(self).dir,
            near(old(self).head().spec_end(), final(self).head().spec_end(), dist + SNAKE_WIDTH),
            final(self).body@ == grown_body(old(self).body@, old(self).dir, dist as int),
    {
        let ghost old_body = self.body@;
        let front = self.body[0];
        assert(front.wf());
        if front.direction() != self.dir {
            let t = Turn::new(front.end(), front.direction(), self.dir);
            self.body.push_front(Segment::Turn(t));
            proof {
                lemma_total_len_front(Segment::Turn(t), old_body);
                lemma_connected_front(Segment::Turn(t), old_body);
            }
        }
        let ghost mid_body = self.body@;
        assert(mid_body[0].wf());
        assert(connected(mid_body));
        let mut f = self.body.pop_front().unwrap();
        assert(self.body@ =~= mid_body.drop_first());
        proof {
            let rest = mid_body.drop_first();
            assert forall|i: int| 0 <= i < rest.len() - 1 implies #[trigger] rest[i].follows(
                rest[i + 1],
            ) by {
                assert(rest[i] == mid_body[i + 1] && rest[i + 1] == mid_body[(i + 1) + 1]);
            }
            if rest.len() > 0 {
                assert(mid_body[0].follows(mid_body[0int + 1]));
            }
            lemma_total_len_front(f, self.body@);
            assert(seq![f] + self.body@ =~= mid_body);
        }
        let left = f.grow(dist);
        let pos = f.end();
        let d = f.direction();
        self.body.push_front(f);
        proof {
            lemma_total_len_front(f, mid_body.drop_first());
            lemma_connected_front(f, mid_body.drop_first());
        }
        if left > 0 {
            let mut l = Segment::Line(Line::new(pos, d));
            l.grow(left);
            let ghost before = self.body@;
            self.body.push_front(l);
            proof {
                lemma_total_len_front(l, before);
                lemma_connected_front(l, before);
            }
        }
        proof {
            assert forall|i: int| 0 <= i < self.body@.len() implies #[trigger] self.body@[i].wf() by {
                if i >= self.body@.len() - old_body.len() + 1 {
                    assert(self.body@[i] == old_body[i - (self.body@.len() - old_body.len())]);
                }
            }
            assert(self.body@ =~= grown_body(old_body, self.dir, dist as int));
        }
    }
    /// Retract the snake's tail by `dist`: segments that it uses up are
    /// removed, the last one touched keeps what is left of it.
    #[verifier::rlimit(50)]
    pub fn shrink(&mut self, dist: i64)
        requires
            old(self).wf(),
            0 <= dist < old(self).spec_len(),
        ensures
            final(self).wf(),
            final(self).body@ == shrunk_body(old(self).body@, dist as int),
            final(self).spec_len() == old(self).spec_len() - dist,
            final(self).dir == old(self).dir,
            final(self).head().spec_end() == old(self).head().spec_end(),
            final(self).head().spec_direction() == old(self).head().spec_direction(),
    {
        let ghost old_body = self.body@;
        let mut left = dist;
        loop
            invariant_except_break
                self.body@ == old_body.subrange(0, self.body@.len() as int),
                0 <= left < total_len(self.body@),
                total_len(self.body@) - left == total_len(old_body) - dist,
                shrunk_body(self.body@, left as int) == shrunk_body(old_body, dist as int),
            invariant
                0 < self.body@.len() <= old_body.len(),
                forall|i: int| 0 <= i < old_body.len() ==> #[trigger] old_body[i].wf(),
                self.dir == old(self).dir,
            ensures
                self.body@ == shrunk_body(old_body, dist as int),
                total_len(self.body@) == total_len(old_body) - dist,
                self.body@.drop_last() == old_body.subrange(0, self.body@.len() - 1),
                self.body@.last().wf(),
                self.body@.last().spec_end() == old_body[self.body@.len() - 1].spec_end(),
                self.body@.last().spec_direction() == old_body[self.body@.len()
                    - 1].spec_direction(),
            decreases self.body@.len(),
        {
            let ghost cur = self.body@;
            let mut back = self.body.pop_back().unwrap();
            assert(self.body@ =~= cur.drop_last());
            assert(back == old_body[cur.len() - 1]);
            let l = back.shrink(left);
            if l == 0 {
                self.body.push_back(back);
                assert(self.body@.drop_last() =~= cur.drop_last());
                break;
            }
            proof {
                assert(total_len(cur) == total_len(cur.drop_last()) + cur.last().spec_len());
                if cur.len() == 1 {
                    assert(cur.drop_last() =~= Seq::<Segment>::empty());
                    assert(total_len(Seq::<Segment>::empty()) == 0);
                }
            }
            assert(cur.len() > 1);
            assert(shrunk_body(cur, left as int) == shrunk_body(cur.drop_last(), l as int));
            assert(self.body@ =~= old_body.subrange(0, self.body@.len() as int));
            left = l;
        }
        proof {
            let n = self.body@.len();
            assert forall|i: int| 0 <= i < n implies #[trigger] self.body@[i].wf() by {
                if i < n - 1 {
                    assert(self.body@[i] == self.body@.drop_last()[i]);
                } else {
                    assert(self.body@[i] == self.body@.last());
                }
            }
            if n > 1 {
                assert(self.body@[0] == self.body@.drop_last()[0]);
            }
            assert forall|i: int| 0 <= i < n - 1 implies #[trigger] self.body@[i].follows(
                self.body@[i + 1],
            ) by {
                assert(self.body@[i] == self.body@.drop_last()[i]);
                assert(self.body@.drop_last()[i] == old_body.subrange(0, n - 1)[i]);
                assert(self.body@[i] == old_body[i]);
                assert(old_body[i].follows(old_body[i + 1]));
                if i + 1 < n - 1 {
                    assert(self.body@[i + 1] == self.body@.drop_last()[i + 1]);
                } else {
                    assert(self.body@[i + 1] == self.body@.last());
                }
            }
        }
    }

    /// Move the snake by `dist` in its heading: grow the head, then shrink the
    /// tail by the same distance, so the length stays the same.
    pub fn do_move(&mut self, dist: i64)
        requires
            old(self).wf(),
            0 <= dist < old(self).spec_len(),
            old(self).has_room(dist as int),
        ensures
            final(self).wf(),
            final(self).spec_len() == old(self).spec_len(),
            final(self).dir == old(self).dir,
            final(self).head().spec_direction() == old(self).dir,
            near(old(self).head().spec_end(), final(self).head().spec_end(), dist + SNAKE_WIDTH),
            final(self).body@ == shrunk_body(
                grown_body(old(self).body@, old(self).dir, dist as int),
                dist as int,
            ),
    {
        self.grow(dist);
        self.shrink(dist);
    }

    /// Some segment's bounding box collides with `other`.
    pub open spec fn spec_collide(self, other: Rect) -> bool {
        body_collides(self.body@, other)
    }

    /// Check if any of the segments collides with `other`.
    pub fn collide(&self, other: &Rect) -> (r: bool)
        requires
            self.wf(),
            other.wf(),
        ensures
            r == self.spec_collide(*other),
    {
        let n = self.body.len();
        let mut i: usize = 0;
        while i < n
            invariant
                self.wf(),
                other.wf(),
                n == self.body@.len(),
                0 <= i <= n,
                forall|j: int|
                    0 <= j < i ==> !(#[trigger] self.body@[j]).spec_bounding_box().spec_collides(
                        *other,
                    ),
            decreases n - i,
        {
            if self.body[i].collision(other) {
                return true;
            }
            i = i + 1;
        }
        false
    }

    /// The head's bounding box leaves the play field by more than `WALL_MARGIN`.
    pub open spec fn spec_wall_collide(self) -> bool {
        let head = self.head().spec_bounding_box();
        ||| head.spec_left() < -WALL_MARGIN
        ||| head.spec_top() < -WALL_MARGIN
        ||| head.spec_bottom() > SCREEN_SIZE + WALL_MARGIN
        ||| head.spec_right() > SCREEN_SIZE + WALL_MARGIN
    }

    /// Check if the head is colliding with the screen boundaries.
    pub fn wall_collide(&self) -> (r: bool)
        requires
            self.wf(),
        ensures
            r == self.spec_wall_collide(),
    {
        let head = self.body[0].bounding_box();
        head.left() < -WALL_MARGIN || head.top() < -WALL_MARGIN || head.bottom() > SCREEN_SIZE
            + WALL_MARGIN || head.right() > SCREEN_SIZE + WALL_MARGIN
    }

    /// The head collides with some other segment.
    pub open spec fn spec_self_collide(self) -> bool {
        exists|i: int|
            1 <= i < self.body@.len() && self.head().spec_bounding_box().spec_collides(
                (#[trigger] self.body@[i]).spec_bounding_box(),
            )
    }

    /// Check if the head is colliding with any other segment.
    pub fn self_collide(&self) -> (r: bool)
        requires
            self.wf(),
        ensures
            r == self.spec_self_collide(),
    {
        let n = self.body.len();
        let head = self.body[0].bounding_box();
        let mut i: usize = 1;
        while i < n
            invariant
                self.wf(),
                head == self.head().spec_bounding_box(),
                head.wf(),
                n == self.body@.len(),
                1 <= i <= n,
                forall|j: int|
                    1 <= j < i ==> !head.spec_collides((#[trigger] self.body@[j]).spec_bounding_box()),
            decreases n - i,
        {
            let other = self.body[i].bounding_box();
            if head.collision(&other) {
                return true;
            }
            i = i + 1;
        }
        false
    }
}

/// A head whose bounding box stays within the play field, or leaves it by at
/// most `WALL_MARGIN`, does not hit the wall; one that leaves it by more does.
pub proof fn lemma_wall_bounds(s: Snake)
    requires
        s.wf(),
    ensures
        ({
            let b = s.head().spec_bounding_box();
            -WALL_MARGIN <= b.spec_left() && b.spec_right() <= SCREEN_SIZE + WALL_MARGIN
                && -WALL_MARGIN <= b.spec_top() && b.spec_bottom() <= SCREEN_SIZE + WALL_MARGIN
        }) ==> !s.spec_wall_collide(),
        ({
            let b = s.head().spec_bounding_box();
            b.spec_left() < -WALL_MARGIN || b.spec_right() > SCREEN_SIZE + WALL_MARGIN
                || b.spec_top() < -WALL_MARGIN || b.spec_bottom() > SCREEN_SIZE + WALL_MARGIN
        }) ==> s.spec_wall_collide(),
{
}

} // verus!
