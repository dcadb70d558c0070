//! A turn-based snake game on a character grid: the grid, the snake and the
//! rules of one session, with every state transition verified.

pub mod direction;
pub mod game;
pub mod grid;
mod rng;
pub mod snake;
pub mod symbol;
