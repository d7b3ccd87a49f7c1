//! Decision logic of a segmented, trailing-body ("snake chain") simulator.
//!
//! The chain itself is floating-point geometry (leash-constrained point
//! pulling, heading and side-point derivation), which stays outside this
//! crate. What stands here, fully verified, are the simulator's integer- and
//! boolean-valued rules: the construction-time segment-count check, the
//! resolution of pressed direction keys into a desired heading (measured in
//! eighths of a turn so it stays in integer arithmetic), and the grid helpers
//! of the surrounding game shell.

pub mod chain;
pub mod grid;
