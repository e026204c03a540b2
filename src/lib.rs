//! The movement and collision core of a grid Snake game: the snake's
//! per-tick state machine, fruit placement, and the session controller that
//! turns key presses into ticks, growth, game over and restarts.

pub mod cell;
pub mod direction;
pub mod fruit;
pub mod game;
pub mod grid;
pub mod laws;
pub mod snake;
