//! A terminal falling-block puzzle game core: piece geometry, the seven
//! tetromino shapes, a fixed occupancy board, collision and rotation checks,
//! gravity, line clearing with combo scoring, and the session state machine.
//! Rendering and input live outside this crate; the core works on plain
//! values and is verified.

pub mod geometry;
pub mod pieces;
pub mod board;
pub mod engine;
pub mod lines;
pub mod game;
