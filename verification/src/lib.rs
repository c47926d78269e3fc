//! Core simulation of a small 2D arcade shooter: a player avatar moves and
//! fires at wandering enemies inside a bounded viewport, while a match state
//! machine tracks health, ammunition, score and the Fight / Win / Lose status.
//!
//! Coordinates are integer viewport units and times are integer milliseconds,
//! so every rule of the simulation is stated and checked exactly. Rendering
//! and window plumbing live outside this crate; the simulation only exposes
//! its state for a renderer to read.

pub mod game;
pub mod geom;
pub mod schemas;
pub mod util;
