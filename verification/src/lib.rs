//! The rules of a snake game on a bounded grid: the snake's body and its
//! movement, collision and death, food placement, and the tick-driven
//! game state that ties them together.
//!
//! Every state has a mathematical view, and every operation states, as a
//! function on views, what it returns and how it changes the state.

pub mod direction;
pub mod snake;
pub mod game;
mod random;
