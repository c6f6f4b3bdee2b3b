//! Deterministic, tick-driven grid simulation of a worm-like body that moves
//! on an integer grid, is blocked by static obstacles and parts of itself,
//! grows on food, shrinks on poison, falls under a rigid uniform gravity,
//! supports undo and reset through full-state snapshots, and detects a win
//! when the head returns to the tail.
//!
//! The per-tick pipeline is: history capture, food growth, poison shrink,
//! movement, gravity, win check. Undo and reset commands pre-empt the
//! pipeline for their tick.

pub mod body;
pub mod gravity;
pub mod grid;
pub mod growth;
pub mod history;
pub mod laws;
pub mod level;
pub mod movement;
pub mod orient;
pub mod sim;
pub mod win;

use vstd::prelude::*;

verus! {

} // verus!
