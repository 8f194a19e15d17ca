//! The link between the halves of a split keyboard.
//!
//! The central half owns the keymap and talks to the host; a peripheral half
//! sends its input events and receives state to show.
pub mod message;
pub mod peripheral;
