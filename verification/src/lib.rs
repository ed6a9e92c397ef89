//! Movement and collision engine for a snake that crawls across the six faces
//! of a cube.
//!
//! The crate has two layers. The cube topology resolver (`cube`) is a pure
//! function that maps a cell and a travel direction to the next cell, crossing
//! face boundaries through a fixed 24-entry transition table. The game state
//! machine (`game`) owns the snake body, food, score and game-over flag, and
//! advances the game by one tick per call. `leaderboard` keeps a sorted,
//! capped list of final scores; storing and showing it belong to the caller,
//! as do rendering, audio and input.

pub mod cube;
pub mod game;
pub mod leaderboard;
