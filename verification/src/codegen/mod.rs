//! The planning half of the code generator.
//!
//! From the keyboard's configuration these functions decide what is generated:
//! which devices and processors, under which names, in which order, and which
//! configurations are refused and why. Turning a plan into tokens is left to the
//! macro crate.
pub mod args;
pub mod central;
pub mod config;
pub mod input_device;
pub mod iqs5xx;
pub mod laws;
pub mod text;
