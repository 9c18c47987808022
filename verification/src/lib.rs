//! Core of a turn-based snake game on a fixed grid.
//!
//! The snake is an ordered chain of grid cells with a heading and a growth
//! debt; food sits on random cells and extends the snake when its head lands
//! on one. Everything here is pure state and arithmetic: rendering, window
//! management and input polling live outside the library and only consume
//! the values these types expose.

pub mod food;
pub mod game;
pub mod grid;
pub mod render;
pub mod snake;
