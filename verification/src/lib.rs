//! Rules engine of a cooperative narrative exploration board game.
//!
//! The engine is a turn-based state machine: it accepts player commands,
//! validates them against the current phase, and produces a brand-new
//! state snapshot or a descriptive error, leaving the original state
//! untouched on failure.

pub mod error;
pub mod game_state;
pub mod manager;
pub mod utils;

use vstd::prelude::*;

verus! {

/// A command either yields a fresh state snapshot or a descriptive error.
pub type Update<T> = Result<T, crate::error::GameError>;

} // verus!
