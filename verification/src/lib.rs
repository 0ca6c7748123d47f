//! Core simulation of a grid-based snake game: a discrete-time state machine
//! that advances the snake on an integer grid, grows it when it eats food,
//! and resets the game on self-collision. Presentation, windowing and input
//! devices are outside collaborators; the simulation consumes already-decoded
//! key states and plain elapsed time.

pub mod clock;
pub mod engine;
pub mod grid;
pub mod state;
