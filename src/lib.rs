//! Simulation core of a snake game whose body is a chain of straight lines
//! and quarter-circle turns that moves at constant speed.
//!
//! All geometry is integral: lengths and positions are measured in units of
//! a ten-thousandth of a pixel (see [`consts::UNITS_PER_PIXEL`]) and time in
//! microseconds.

pub mod consts;
pub mod coords;
pub mod direction;
pub mod food;
pub mod input;
pub mod rect;
pub mod line;
pub mod placement;
pub mod turn;
pub mod segment;
pub mod snake;
pub mod state;

pub use crate::coords::Coords;
pub use crate::direction::Direction;
pub use crate::food::Food;
pub use crate::input::InputQueue;
pub use crate::line::Line;
pub use crate::rect::Rect;
pub use crate::segment::Segment;
pub use crate::snake::Snake;
pub use crate::state::{GameData, GameState};
pub use crate::turn::{Turn, TurnType};
