//! A snake game on a bounded grid: the rules, the entities and the per-tick
//! state machine, with terminal drawing and input left to the caller.

pub mod geometry;
pub mod snake;
pub mod bomb;
mod random;
pub mod rules;
pub mod food;
pub mod game;
