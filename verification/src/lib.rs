//! Core engine of a two-paddle ball-bounce simulation: entity model,
//! per-tick physics and collision step, predictive agent, and the
//! command/tick interface consumed by an embedding input/render layer.
use vstd::prelude::*;

pub mod agent;
pub mod ball;
pub mod game;
pub mod geometry;
pub mod helpers;
mod rng;
pub mod theme;

verus! {

/// Number of characters a player name label holds.
pub const PLAYER_NAME_SIZE: usize = 16;

} // verus!
