//! Core simulation of a grid-based snake game: movement, growth and shrinkage,
//! food with several effects, collisions, speed and the game-over lifecycle.
pub mod game;
pub mod laws;
pub mod snake;
