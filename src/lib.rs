//! A Snake arcade game's rules: the grid that overlays the screen, the snake
//! and its pellet, collision tests and the flow from menu to play to game over.
//!
//! Screen positions are fixed-point integers: one screen unit (the board spans
//! -1 to 1 on each axis) is `UNITS_PER_SCREEN` units.

pub mod util;
pub mod geometry;
pub mod coords;
pub mod snake;
pub mod pellet;
pub mod input;
pub mod text;
pub mod state;
pub mod system;
pub mod game;
