//! A small movement game on a fixed square grid: a hero walks toward a goal
//! cell and must not step on a mine.

pub mod board;
pub mod command;
pub mod game;
pub mod lemmas;
mod random;
