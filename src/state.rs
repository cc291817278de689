//! The game: snake, food, pending input, score, and the rules of one step.
use vstd::prelude::*;

use crate::consts::{
    FOOD_ATTEMPTS, FOOD_GRID, FOOD_SIZE, MAX_TICK_MICROS, SCREEN_SIZE, SNAKE_START_HEIGHT, SNAKE_WIDTH,
    SPEED, WALL_MARGIN,
};
use crate::direction::Direction;
use crate::coords::Coords;
use crate::food::{in_food_range, Food};
use crate::line::Line;
use crate::placement::{
    clear_of, field_full, first_clear, grid_point, lemma_grid_point_in_range, scan_clear,
};
use crate::input::{updated, InputQueue};
use crate::segment::Segment;
use crate::snake::{body_collides, grown_body, shrunk_body, Snake};

verus! {

/// Whether the round is waiting to start or running.
#[derive(PartialEq, Eq, Structural, Clone, Copy, Debug)]
pub enum GameState {
    PreGame,
    Game,
}

/// How far the head can get beyond the play field by moving: it moves only
/// while inside the walls, and at most one step.
pub open spec fn move_reach() -> int {
    WALL_MARGIN + MAX_TICK_MICROS * SPEED + SNAKE_WIDTH
}

/// How far the head can get beyond the play field by eating once more.
pub open spec fn eat_reach() -> int {
    move_reach() + FOOD_SIZE + SNAKE_WIDTH
}

/// The end of a segment lies in its bounding box.
pub proof fn lemma_end_in_bounding_box(s: Segment)
    requires
        s.wf(),
    ensures
        s.spec_bounding_box().spec_left() <= s.spec_end().0 <= s.spec_bounding_box().spec_right(),
        s.spec_bounding_box().spec_top() <= s.spec_end().1 <= s.spec_bounding_box().spec_bottom(),
{
}

/// A new snake leaves room for food: the first place of the search in
/// order is clear of it.
pub proof fn lemma_fresh_snake_leaves_room(s: Seq<Segment>)
    requires
        s == seq![Segment::Line(Snake::start_line(SCREEN_SIZE / 2, SCREEN_SIZE / 2))],
    ensures
        clear_of(s, grid_point(0, 0)),
        !field_full(s),
{
    let b = Food::square_at(grid_point(0, 0));
    let l: Line = Snake::start_line(SCREEN_SIZE / 2, SCREEN_SIZE / 2);
    assert(l.spec_bounding_box().spec_left() == SCREEN_SIZE / 2 - SNAKE_WIDTH / 2);
    assert(b.spec_right() <= l.spec_bounding_box().spec_left());
    assert(!s[0].spec_bounding_box().spec_collides(b));
    assert(clear_of(s, grid_point(0, 0)));
}

/// Everything that the game keeps between two steps.
pub struct GameData {
    pub snake: Snake,
    pub food: Food,
    pub inputs: InputQueue,
    pub score: u32,
    pub state: GameState,
}

/// `score + 1`, saturated at `u32::MAX`.
pub open spec fn score_after_eating(score: u32) -> u32 {
    if score == u32::MAX {
        score
    } else {
        (score + 1) as u32
    }
}

impl GameData {
    /// The head's end lies within `r` of the play field.
    pub open spec fn head_in_field(self, r: int) -> bool {
        let e = self.snake.head().spec_end();
        -r <= e.0 <= SCREEN_SIZE + r && -r <= e.1 <= SCREEN_SIZE + r
    }

    /// Well formed, but for a heading that may differ from the head's
    /// direction (a change of direction that the snake has not yet made).
    pub open spec fn wf_pending_turn(self) -> bool {
        &&& self.snake.wf()
        &&& self.snake.spec_len() >= SNAKE_START_HEIGHT
        &&& self.food.bbox.wf()
        &&& self.food_in_field()
        &&& self.head_in_field(eat_reach())
        &&& (self.head_in_field(move_reach()) || !self.snake.spec_collide(self.food.bbox))
    }

    /// The snake is well formed, at least as long as at the start, heads the
    /// way its head points, and its head is near the play field.
    pub open spec fn wf(self) -> bool {
        &&& self.wf_pending_turn()
        &&& self.snake.dir == self.snake.head().spec_direction()
    }

    /// The state after a reset: a new snake in the middle of the field, food
    /// in the field clear of it, no pending input, no score, waiting to start.
    pub open spec fn is_reset(self) -> bool {
        &&& self.snake.body@ == seq![
            Segment::Line(Snake::start_line(SCREEN_SIZE / 2, SCREEN_SIZE / 2)),
        ]
        &&& self.snake.dir == Direction::Down
        &&& self.inputs.inputs@ == Seq::<Direction>::empty()
        &&& self.score == 0
        &&& self.state == GameState::PreGame
        &&& !self.snake.spec_collide(self.food.bbox)
        &&& self.food_in_field()
    }

    /// The food is centred in the range that food is drawn from.
    pub open spec fn food_in_field(self) -> bool {
        exists|c: Coords| in_food_range(c) && self.food.bbox == Food::square_at(c)
    }

    /// `next` is what `update_input` makes of `self` after `dt` microseconds:
    /// only the input queue and the heading change, as the queue's update says.
    pub open spec fn input_stepped(self, dt: u64, next: GameData) -> bool {
        &&& next.snake.body == self.snake.body
        &&& next.food == self.food
        &&& next.score == self.score
        &&& next.state == self.state
        &&& exists|r: Option<Direction>|
            {
                &&& #[trigger] updated(
                    self.inputs.inputs@,
                    self.inputs.timer,
                    dt,
                    self.snake.dir,
                    r,
                    next.inputs.inputs@,
                    next.inputs.timer,
                )
                &&& next.snake.dir == match r {
                    Some(d) => d,
                    None => self.snake.dir,
                }
            }
    }

    /// `self` after eating: the snake grown by `FOOD_SIZE` at its head, one
    /// more point, and food clear of the snake in the field.
    pub open spec fn ate(self, next: GameData) -> bool {
        &&& next.snake.body@ == grown_body(self.snake.body@, self.snake.dir, FOOD_SIZE as int)
        &&& next.snake.spec_len() == self.snake.spec_len() + FOOD_SIZE
        &&& next.snake.dir == self.snake.dir
        &&& next.score == score_after_eating(self.score)
        &&& !next.snake.spec_collide(next.food.bbox)
        &&& next.food_in_field()
        &&& next.inputs == self.inputs
        &&& next.state == self.state
    }

    /// `next` is what `update_snake` makes of `self` in a step of `dt`
    /// microseconds: eat when the snake touches the food (or, only when the
    /// grown snake still touches it and covers the whole search in order,
    /// possibly end the round); else start over when the head hits the
    /// snake or a wall; else move the snake by `dt * SPEED`.
    pub open spec fn snake_stepped(self, dt: u64, next: GameData) -> bool {
        let was = self.snake;
        let g = grown_body(was.body@, was.dir, FOOD_SIZE as int);
        if was.spec_collide(self.food.bbox) {
            self.ate(next) || (field_full(g) && body_collides(g, self.food.bbox)
                && next.is_reset())
        } else if was.spec_self_collide() || was.spec_wall_collide() {
            next.is_reset()
        } else {
            &&& next.snake.body@ == shrunk_body(grown_body(was.body@, was.dir, dt * SPEED), dt * SPEED)
            &&& next.snake.spec_len() == was.spec_len()
            &&& next.snake.dir == was.dir
            &&& next.food == self.food
            &&& next.score == self.score
            &&& next.inputs == self.inputs
            &&& next.state == self.state
        }
    }

    /// `self` reaches `next` in `elapsed` microseconds through the states of
    /// `path`: nothing happens before the round starts; while it runs, a step
    /// of `min(elapsed, MAX_TICK_MICROS)` goes through `path[0]` (after the
    /// input) to `path[1]` (after the snake), and the rest of the time follows
    /// unless it is used up or the round has ended.
    pub open spec fn ticked_along(self, elapsed: u64, path: Seq<GameData>, next: GameData) -> bool
        decreases path.len(),
    {
        if self.state == GameState::PreGame {
            path.len() == 0 && next == self
        } else if path.len() < 2 {
            false
        } else {
            let dt = if elapsed > MAX_TICK_MICROS {
                MAX_TICK_MICROS
            } else {
                elapsed
            };
            &&& self.input_stepped(dt, path[0])
            &&& path[0].snake_stepped(dt, path[1])
            &&& if elapsed - dt == 0 || path[1].state == GameState::PreGame {
                path.len() == 2 && next == path[1]
            } else {
                path[1].ticked_along((elapsed - dt) as u64, path.subrange(2, path.len() as int), next)
            }
        }
    }

    /// `next` is what `update` makes of `self` in `elapsed` microseconds.
    pub open spec fn ticked(self, elapsed: u64, next: GameData) -> bool {
        exists|path: Seq<GameData>| self.ticked_along(elapsed, path, next)
    }

    /// A new game: a new snake in the middle of the field, food away from it,
    /// no pending input and no score, waiting to start.
    pub fn new() -> (r: GameData)
        ensures
            r.wf(),
            r.is_reset(),
            r.inputs.timer == 0,
    {
        let mut r = GameData {
            snake: Snake::new(SCREEN_SIZE / 2, SCREEN_SIZE / 2),
            food: Food::random(),
            inputs: InputQueue::new(),
            score: 0,
            state: GameState::PreGame,
        };
        proof {
            lemma_fresh_snake_leaves_room(r.snake.body@);
        }
        r.relocate_food();
        r
    }

    /// Move the food to a place clear of the snake, and return whether there
    /// is one. Food that is clear already stays. Otherwise `FOOD_ATTEMPTS`
    /// random places are drawn and the first clear one is taken; when none is
    /// clear, the field is searched in order. Only when the field is full does
    /// the food stay where it is.
    pub fn relocate_food(&mut self) -> (placed: bool)
        requires
            old(self).snake.wf(),
            old(self).food.bbox.wf(),
        ensures
            placed == !final(self).snake.spec_collide(final(self).food.bbox),
            !placed ==> old(self).snake.spec_collide(old(self).food.bbox) && field_full(
                old(self).snake.body@,
            ),
            !old(self).snake.spec_collide(old(self).food.bbox) ==> final(self).food == old(
                self,
            ).food,
            final(self).food == old(self).food || final(self).food_in_field(),
            !placed ==> final(self).food == old(self).food,
            final(self).food.bbox.wf(),
            final(self).snake == old(self).snake,
            final(self).inputs == old(self).inputs,
            final(self).score == old(self).score,
            final(self).state == old(self).state,
    {
        if !self.snake.collide(&self.food.bbox) {
            return true;
        }
        let mut centres: Vec<Coords> = Vec::new();
        let mut k: u64 = 0;
        while k < FOOD_ATTEMPTS
            invariant
                forall|m: int| 0 <= m < centres@.len() ==> in_food_range(#[trigger] centres@[m]),
                centres@.len() == k,
                k <= FOOD_ATTEMPTS,
            decreases FOOD_ATTEMPTS - k,
        {
            centres.push(Coords::random(FOOD_SIZE, SCREEN_SIZE - FOOD_SIZE));
            k = k + 1;
        }
        match first_clear(&self.snake, &centres) {
            Some(i) => {
                let c = centres[i];
                self.food = Food::at(c);
                assert(in_food_range(c));
                true
            },
            None => match scan_clear(&self.snake) {
                Some(c) => {
                    self.food = Food::at(c);
                    proof {
                        let (i, j) = choose|i: int, j: int|
                            {
                                &&& 0 <= i < FOOD_GRID
                                &&& 0 <= j < FOOD_GRID
                                &&& c == #[trigger] grid_point(i, j)
                                &&& clear_of(self.snake.body@, c)
                            };
                        lemma_grid_point_in_range(i, j);
                        assert(!field_full(self.snake.body@));
                    }
                    true
                },
                None => false,
            },
        }
    }

    /// Start over: a new snake in the middle of the field, food away from it,
    /// no pending input and no score, waiting to start.
    pub fn reset(&mut self)
        ensures
            final(self).wf(),
            final(self).is_reset(),
            final(self).inputs.timer == old(self).inputs.timer,
    {
        self.snake = Snake::new(SCREEN_SIZE / 2, SCREEN_SIZE / 2);
        self.food = Food::random();
        proof {
            lemma_fresh_snake_leaves_room(self.snake.body@);
        }
        self.relocate_food();
        self.inputs.clear();
        self.score = 0;
        self.state = GameState::PreGame;
    }

    /// Count one more food eaten.
    pub fn inc_score(&mut self)
        ensures
            final(self).score == score_after_eating(old(self).score),
            final(self).snake == old(self).snake,
            final(self).food == old(self).food,
            final(self).inputs == old(self).inputs,
            final(self).state == old(self).state,
    {
        self.score = self.score.saturating_add(1);
    }
    /// Let the input queue pick the next heading after `time_delta` microseconds.
    pub fn update_input(&mut self, time_delta: u64)
        requires
            old(self).wf(),
        ensures
            final(self).wf_pending_turn(),
            old(self).input_stepped(time_delta, *final(self)),
    {
        let r = self.inputs.update(time_delta, self.snake.dir);
        if let Some(d) = r {
            self.snake.dir = d;
        }
        assert(updated(
            old(self).inputs.inputs@,
            old(self).inputs.timer,
            time_delta,
            old(self).snake.dir,
            r,
            self.inputs.inputs@,
            self.inputs.timer,
        ));
    }

    /// One step of the running game, `time_delta` microseconds long: eat the
    /// food if the snake touches it (the snake grows by `FOOD_SIZE`, the score
    /// goes up and the food moves away from the snake), else start over if the
    /// head hits the snake or a wall, else move the snake.
    ///
    /// Only when the grown snake covers every place of the search in order,
    /// and no random place is clear either, does eating end the round.
    #[verifier::rlimit(50)]
    pub fn update_snake(&mut self, time_delta: u64)
        requires
            old(self).wf_pending_turn(),
            time_delta <= MAX_TICK_MICROS,
        ensures
            final(self).wf(),
            old(self).snake_stepped(time_delta, *final(self)),
    {
        if self.snake.collide(&self.food.bbox) {
            self.snake.grow(FOOD_SIZE);
            self.inc_score();
            if !self.relocate_food() {
                self.reset();
            }
        } else if self.snake.self_collide() || self.snake.wall_collide() {
            self.reset();
        } else {
            proof {
                lemma_end_in_bounding_box(self.snake.head());
            }
            let dist = time_delta as i64 * SPEED;
            self.snake.do_move(dist);
        }
    }
    /// Advance the game by `elapsed` microseconds. While the round runs, each
    /// step of at most `MAX_TICK_MICROS` first lets the input queue turn the
    /// snake, then moves it, feeds it or ends the round; a frame longer than
    /// that is cut into such steps, and the steps stop when the round ends.
    /// Before the round starts nothing changes.
    pub fn update(&mut self, elapsed: u64)
        requires
            old(self).wf(),
        ensures
            final(self).wf(),
            old(self).ticked(elapsed, *final(self)),
            old(self).state == GameState::PreGame ==> *final(self) == *old(self),
    {
        if self.state == GameState::PreGame {
            assert(old(self).ticked_along(elapsed, Seq::<GameData>::empty(), *self));
            return;
        }
        let mut left = elapsed;
        let ghost mut prefix = Seq::<GameData>::empty();
        loop
            invariant_except_break
                self.state == GameState::Game,
                forall|rest: Seq<GameData>, b: GameData| #[trigger]
                    self.ticked_along(left, rest, b) ==> old(self).ticked_along(
                        elapsed,
                        prefix + rest,
                        b,
                    ),
            invariant
                self.wf(),
            ensures
                old(self).ticked(elapsed, *self),
            decreases left,
        {
            let ghost cur = *self;
            let dt = if left > MAX_TICK_MICROS {
                MAX_TICK_MICROS
            } else {
                left
            };
            self.update_input(dt);
            let ghost mid = *self;
            self.update_snake(dt);
            let ghost after = *self;
            let ghost left0 = left;
            let ghost pre = prefix;
            left = left - dt;
            proof {
                prefix = prefix + seq![mid, after];
            }
            if left == 0 || self.state == GameState::PreGame {
                proof {
                    let p = seq![mid, after];
                    assert(cur.ticked_along(left0, p, after));
                    assert(pre + p == prefix);
                    assert(old(self).ticked_along(elapsed, prefix, after));
                }
                break;
            }
            assert forall|rest: Seq<GameData>, b: GameData| #[trigger]
                self.ticked_along(left, rest, b) implies old(self).ticked_along(
                elapsed,
                prefix + rest,
                b,
            ) by {
                let p = seq![mid, after] + rest;
                assert(p[0] == mid && p[1] == after);
                assert(p.subrange(2, p.len() as int) =~= rest);
                assert(cur.ticked_along(left0, p, b));
                assert(pre + p =~= prefix + rest);
            }
        }
    }

    /// A direction key was pressed: queue `dir` unless it repeats the newest entry.
    pub fn press_direction(&mut self, dir: Direction)
        requires
            old(self).wf(),
        ensures
            final(self).wf(),
            final(self).inputs.inputs@ == if old(self).inputs.inputs@.len() > 0
                && old(self).inputs.inputs@.last() == dir {
                old(self).inputs.inputs@
            } else {
                old(self).inputs.inputs@.push(dir)
            },
            final(self).inputs.timer == old(self).inputs.timer,
            final(self).snake == old(self).snake,
            final(self).food == old(self).food,
            final(self).score == old(self).score,
            final(self).state == old(self).state,
    {
        self.inputs.push(dir);
    }

    /// The start key was pressed: start the round if it waits, and forget the
    /// pending input.
    pub fn press_start(&mut self)
        requires
            old(self).wf(),
        ensures
            final(self).wf(),
            final(self).state == GameState::Game,
            final(self).inputs.inputs@ == Seq::<Direction>::empty(),
            final(self).inputs.timer == old(self).inputs.timer,
            final(self).snake == old(self).snake,
            final(self).food == old(self).food,
            final(self).score == old(self).score,
    {
        if self.state == GameState::PreGame {
            self.state = GameState::Game;
        }
        self.inputs.clear();
    }
}

} // verus!
