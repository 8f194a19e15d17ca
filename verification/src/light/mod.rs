//! Per-key RGB lighting.
//!
//! A driver owns the LED strip and its frame buffer, a renderer computes a
//! frame from keyboard state, and the processor runs the renderer when an event
//! has changed that state. Nothing is rendered while the state stands still.
pub mod driver;
pub mod keymap_source;
pub mod laws;
pub mod overlay;
pub mod processor;
pub mod renderer;
pub mod split_link;
