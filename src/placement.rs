//! Choosing a place for new food that is clear of the snake.
use vstd::prelude::*;

use crate::consts::{COORD_LIMIT, FOOD_GRID, FOOD_SIZE};
use crate::coords::Coords;
use crate::food::{in_food_range, Food};
use crate::segment::Segment;
use crate::snake::{body_collides, Snake};

verus! {

/// Food centred on `c` would not touch the chain `s`.
pub open spec fn clear_of(s: Seq<Segment>, c: Coords) -> bool {
    !body_collides(s, Food::square_at(c))
}

/// The centre of the place in column `i` and row `j` of the search in order.
pub open spec fn grid_point(i: int, j: int) -> Coords {
    Coords { x: (FOOD_SIZE * (1 + i)) as i64, y: (FOOD_SIZE * (1 + j)) as i64 }
}

/// No place of the search in order is clear of `s`: the field is full.
pub open spec fn field_full(s: Seq<Segment>) -> bool {
    forall|i: int, j: int|
        0 <= i < FOOD_GRID && 0 <= j < FOOD_GRID ==> !clear_of(s, #[trigger] grid_point(i, j))
}

/// Places of the search in order lie in the range of random food.
pub proof fn lemma_grid_point_in_range(i: int, j: int)
    requires
        0 <= i < FOOD_GRID,
        0 <= j < FOOD_GRID,
    ensures
        in_food_range(grid_point(i, j)),
{
}

/// Whether food centred on `c` would be clear of the snake.
pub fn is_clear(snake: &Snake, c: Coords) -> (r: bool)
    requires
        snake.wf(),
        c.within(COORD_LIMIT as int),
    ensures
        r == clear_of(snake.body@, c),
{
    let f = Food::at(c);
    !snake.collide(&f.bbox)
}

/// Index of the first of `centres` where food would be clear of the snake,
/// or `None` when none is.
pub fn first_clear(snake: &Snake, centres: &Vec<Coords>) -> (r: Option<usize>)
    requires
        snake.wf(),
        forall|k: int| 0 <= k < centres@.len() ==> (#[trigger] centres@[k]).within(
            COORD_LIMIT as int,
        ),
    ensures
        match r {
            Some(k) => {
                &&& k < centres@.len()
                &&& clear_of(snake.body@, centres@[k as int])
                &&& forall|j: int| 0 <= j < k ==> !clear_of(snake.body@, #[trigger] centres@[j])
            },
            None => forall|j: int|
                0 <= j < centres@.len() ==> !clear_of(snake.body@, #[trigger] centres@[j]),
        },
{
    let mut k: usize = 0;
    while k < centres.len()
        invariant
            snake.wf(),
            forall|m: int| 0 <= m < centres@.len() ==> (#[trigger] centres@[m]).within(
                COORD_LIMIT as int,
            ),
            0 <= k <= centres@.len(),
            forall|j: int| 0 <= j < k ==> !clear_of(snake.body@, #[trigger] centres@[j]),
        decreases centres@.len() - k,
    {
        if is_clear(snake, centres[k]) {
            return Some(k);
        }
        k = k + 1;
    }
    None
}

/// The first place, row by row, of the search in order where food would be
/// clear of the snake, or `None` when the field is full.
pub fn scan_clear(snake: &Snake) -> (r: Option<Coords>)
    requires
        snake.wf(),
    ensures
        match r {
            Some(c) => exists|i: int, j: int|
                {
                    &&& 0 <= i < FOOD_GRID
                    &&& 0 <= j < FOOD_GRID
                    &&& c == #[trigger] grid_point(i, j)
                    &&& clear_of(snake.body@, c)
                },
            None => field_full(snake.body@),
        },
{
    let mut j: i64 = 0;
    while j < FOOD_GRID
        invariant
            snake.wf(),
            0 <= j <= FOOD_GRID,
            forall|a: int, b: int|
                0 <= a < FOOD_GRID && 0 <= b < j ==> !clear_of(snake.body@, #[trigger] grid_point(a, b)),
        decreases FOOD_GRID - j,
    {
        let mut i: i64 = 0;
        while i < FOOD_GRID
            invariant
                snake.wf(),
                0 <= i <= FOOD_GRID,
                0 <= j < FOOD_GRID,
                forall|a: int, b: int|
                    0 <= a < FOOD_GRID && 0 <= b < j ==> !clear_of(snake.body@, #[trigger] grid_point(a, b)),
                forall|a: int| 0 <= a < i ==> !clear_of(snake.body@, #[trigger] grid_point(a, j as int)),
            decreases FOOD_GRID - i,
        {
            let c = Coords::new(FOOD_SIZE * (1 + i), FOOD_SIZE * (1 + j));
            assert(c == grid_point(i as int, j as int));
            if is_clear(snake, c) {
                return Some(c);
            }
            i = i + 1;
        }
        j = j + 1;
    }
    None
}

} // verus!
