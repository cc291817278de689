//! The food that the snake eats.
use vstd::prelude::*;

use crate::consts::{COORD_LIMIT, FOOD_HALF_SIZE, FOOD_SIZE, SCREEN_SIZE};
use crate::coords::Coords;
use crate::rect::Rect;

verus! {

/// Food: a square of side `FOOD_SIZE`.
pub struct Food {
    pub bbox: Rect,
}

/// `c` lies in the range that food centres are drawn from.
pub open spec fn in_food_range(c: Coords) -> bool {
    FOOD_SIZE <= c.x < SCREEN_SIZE - FOOD_SIZE && FOOD_SIZE <= c.y < SCREEN_SIZE - FOOD_SIZE
}

impl Food {
    /// The square of side `FOOD_SIZE` centred on `center`.
    pub open spec fn square_at(center: Coords) -> Rect {
        Rect {
            x: (center.x - FOOD_HALF_SIZE) as i64,
            y: (center.y - FOOD_HALF_SIZE) as i64,
            w: FOOD_SIZE,
            h: FOOD_SIZE,
        }
    }

    /// Food centred on `center`.
    pub fn at(center: Coords) -> (r: Food)
        requires
            center.within(COORD_LIMIT as int),
        ensures
            r.bbox == Food::square_at(center),
            r.bbox.wf(),
    {
        Food {
            bbox: Rect::new(
                center.x - FOOD_HALF_SIZE,
                center.y - FOOD_HALF_SIZE,
                FOOD_SIZE,
                FOOD_SIZE,
            ),
        }
    }

    /// Food at a random place, whose centre is drawn uniformly from
    /// `[FOOD_SIZE, SCREEN_SIZE - FOOD_SIZE)` on each axis.
    pub fn random() -> (r: Food)
        ensures
            exists|c: Coords| in_food_range(c) && r.bbox == Food::square_at(c),
            r.bbox.wf(),
    {
        let c = Coords::random(FOOD_SIZE, SCREEN_SIZE - FOOD_SIZE);
        Food::at(c)
    }
}

} // verus!
