//! A snake game on a rectangular grid, as a state machine: the snake's
//! body and heading, the food, the score, and what one tick or one key
//! press does to them. Drawing and the event loop belong to the caller,
//! who gets plain squares to paint.

pub mod chance;
pub mod food;
pub mod game;
pub mod grid;
pub mod laws;
pub mod snake;

pub use food::Food;
pub use game::{Game, Key, Paint, Primitive, SetupError};
pub use grid::{Direction, SnakePiece, Square};
pub use snake::Snake;
