//! A verified core for a terminal snake game: a snake moves on a bounded
//! grid with wrap-around, eats targets to grow and score, and the game ends
//! on self-collision. Terminal input and drawing live outside this crate;
//! the state machine, geometry, collision rules and speed curve live here,
//! each with a contract.
pub mod geometry;
pub mod input;
pub mod rng;
pub mod snake;
pub mod speed;
pub mod target;
pub mod world;
