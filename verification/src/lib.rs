//! Verified core of a tick-driven snake simulation on a fixed toroidal grid.
//!
//! The library owns the game's state-machine logic: coordinate wraparound,
//! heading changes, per-tick movement with self-collision detection, food
//! spawning, eating and growth, the game-over reset, and quit-key bindings.
//! A host shell is expected to drive one frame at a time, hand in raw key
//! state and elapsed time, and render the resulting state.

pub mod frame;
pub mod game;
pub mod grid;
pub mod quit;
