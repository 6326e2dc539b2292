//! Core of a grid snake game: the grid, the body and its movement rules,
//! and the tick-driven simulation, each with a verified contract.

pub mod game;
pub mod laws;
pub mod random;
pub mod session;
pub mod view;
