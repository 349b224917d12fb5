//! Show logic of a music-synchronised demo: the cue timeline that picks the
//! active scene and transition, the beat detector, the field-solver dispatch
//! plan with its ping-pong buffers, and the per-scene render pass table.

pub mod solver;
pub mod render;
pub mod timeline;
pub mod demo;
