//! Core simulation engine for a falling-block puzzle game: piece geometry
//! and orientation, movement and rotation legality, line clearing, scoring,
//! leveling, and the timing model that paces descent and lock-in.
//!
//! Rendering, windowing and input decoding are deliberately outside this
//! crate; the engine consumes abstract commands and elapsed time, and hands
//! back a read-only view of the playing field.

#![verifier::loop_isolation(false)]

pub mod block;
pub mod config;
pub mod factory;
pub mod game;
pub mod grid;
pub mod leveling;
pub mod menu;
pub mod scene;
pub mod scoring;
pub mod tetromino;
pub mod timer;
