//! Simulation kernel of a grid-based arcade shooter: a player fires shots
//! upward at a descending enemy swarm on a fixed text-cell grid.
//!
//! The library holds the verified core: the frame grid and its coordinate
//! clamping, the timer-gated enemy swarm movement controller, the projectile
//! lifecycle with its radial explosion stages, per-tick collision resolution,
//! and the diff renderer that turns two frame snapshots into the minimal list
//! of display writes. Terminal output, keyboard input and audio playback live
//! outside, behind plain values and the [`sound::SoundPlayer`] capability.

use vstd::prelude::*;

pub mod frame;
pub mod timer;
pub mod sound;
pub mod shot;
pub mod enemy;
pub mod player;
pub mod game_logic;
pub mod render;

verus! {

/// Number of rows of the fixed display grid.
pub const NUM_ROWS: usize = 20;

/// Number of columns of the fixed display grid.
pub const NUM_COLS: usize = 40;

} // verus!
