//! Core logic for a top-down tile-map character demo: the directional
//! sprite-animation state machine, the deterministic asset path
//! resolver, and the keyboard-to-movement decision rules.
//!
//! Everything here is pure and engine-independent. The hosting runtime
//! supplies input, elapsed time and rendering; this crate decides which
//! frame to show, which way to face, and where an asset lives.

pub mod animation;
pub mod assets;
pub mod digits;
pub mod movement;
