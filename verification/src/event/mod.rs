//! Events that the parts of the keyboard exchange.
pub mod input;
pub mod state;
