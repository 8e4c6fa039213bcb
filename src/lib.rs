//! Simulation core of a grid-based snake game: the snake's body on a discrete
//! grid, movement and collisions, food placement and growth, scoring, the
//! menu / play / game-over state machine, pausing and the fixed-timestep clock.

pub mod constants;
pub mod data;
pub mod food;
pub mod game;
pub mod interaction;
pub mod schedule;
pub mod update;
pub mod snake;
