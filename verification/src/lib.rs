//! The rules of a snake game on a fixed grid: the board geometry, the search
//! for a free cell to put food on, and the state machine that a frame loop
//! and a keyboard drive. Every function is verified against a mathematical
//! model of the game.

pub mod food;
pub mod game;
pub mod grid;
pub mod model;
pub mod random;
pub mod theorems;
