//! A falling-block puzzle engine: piece geometry, the playing field and its
//! collision rules, the game state machine, and the scoring policy.

pub mod board;
pub mod config;
pub mod game;
pub mod grid;
pub mod menu;
pub mod random;
pub mod scoring;
pub mod shapes;
pub mod tetromino;
pub mod theorems;
