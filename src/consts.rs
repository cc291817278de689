//! Parameters of the game, in units of length (a ten-thousandth of a pixel)
//! and of time (a microsecond).
use vstd::prelude::*;

verus! {

/// Units of length in one pixel.
pub const UNITS_PER_PIXEL: i64 = 10_000;

/// Side of the square play field.
pub const SCREEN_SIZE: i64 = 800 * UNITS_PER_PIXEL;

/// Width of the snake's body.
pub const SNAKE_WIDTH: i64 = 20 * UNITS_PER_PIXEL;

/// Half of [`SNAKE_WIDTH`].
pub const SNAKE_HALF_WIDTH: i64 = 10 * UNITS_PER_PIXEL;

/// Length of a new snake, in snake widths.
pub const SNAKE_START_LEN: i64 = 8;

/// Length of a new snake.
pub const SNAKE_START_HEIGHT: i64 = SNAKE_WIDTH * SNAKE_START_LEN;

/// Speed of the snake, in units of length per microsecond (300 pixels per second).
pub const SPEED: i64 = 3;

/// How far the head may leave the play field before it hits the wall.
pub const WALL_MARGIN: i64 = SNAKE_HALF_WIDTH;

/// Smallest area of overlap that counts as a collision (one square pixel).
pub const COLLISION_AREA_MARGIN: i64 = UNITS_PER_PIXEL * UNITS_PER_PIXEL;

/// Side of the square food.
pub const FOOD_SIZE: i64 = SNAKE_WIDTH;

/// Half of [`FOOD_SIZE`].
pub const FOOD_HALF_SIZE: i64 = SNAKE_HALF_WIDTH;

/// Room left around a turn when it is drawn.
pub const TURN_MARGIN: i64 = 3 * UNITS_PER_PIXEL;

/// Half of [`TURN_MARGIN`].
pub const HALF_TURN_MARGIN: i64 = 15_000;

/// Least time between two accepted changes of direction: the smallest whole
/// number of microseconds in which the snake travels `SNAKE_WIDTH + TURN_MARGIN`.
pub const MICROS_PER_INPUT_UPDATE: u64 = 76_667;

/// Longest time that one step of the simulation may cover; at [`SPEED`] it is
/// shorter than a new snake.
pub const MAX_TICK_MICROS: u64 = 500_000;

/// How far from the origin any point of the snake may lie.
pub const COORD_LIMIT: i64 = 1_000_000_000_000;

/// How many random places are drawn for new food before the field is
/// searched in order.
pub const FOOD_ATTEMPTS: u64 = 64;

/// Number of food places per axis that the search in order tries: centres at
/// `FOOD_SIZE * (1 + i)` for `i` in `[0, FOOD_GRID)`, all in the range that
/// random food is drawn from.
pub const FOOD_GRID: i64 = 38;

/// `MICROS_PER_INPUT_UPDATE` is the least number of microseconds in which the
/// snake covers `SNAKE_WIDTH + TURN_MARGIN`, and a step of `MAX_TICK_MICROS`
/// covers less than the length of a new snake.
pub proof fn lemma_timing_constants()
    ensures
        MICROS_PER_INPUT_UPDATE * SPEED >= SNAKE_WIDTH + TURN_MARGIN,
        (MICROS_PER_INPUT_UPDATE - 1) * SPEED < SNAKE_WIDTH + TURN_MARGIN,
        MAX_TICK_MICROS * SPEED < SNAKE_START_HEIGHT,
{
}

} // verus!
