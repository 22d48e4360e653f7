//! Decision core of an autopilot for a 2D asteroid-dodging game, with the game's
//! leaderboard, run statistics, settings and menu text.
//!
//! The autopilot's geometry (distances, angles, scores) is floating point and is computed
//! by the caller; this crate takes its outcomes as flags and order-preserving keys and makes
//! every decision: phase changes with hysteresis, target cadence and commitment, the choice
//! of the best candidate, and fire gating. Timers count microseconds.
use vstd::prelude::*;

pub mod autopilot;
pub mod config;
pub mod controllers;
pub mod menu;
pub mod rng;
pub mod scoreboard;
pub mod select;
pub mod simulation;
pub mod stats;
pub mod text;
pub mod widgets;

verus! {

} // verus!
