//! Keyboard firmware core: trackpad HID decoding, per-key lighting, split
//! links, the keyboard builder and the planning half of its code generator.
//!
//! Everything here is a function of its arguments. Time, hardware, channels
//! and the USB stack are handled by the firmware around this library, which
//! hands values in and carries the results out.
pub mod builder;
pub mod bytes;
pub mod codegen;
pub mod event;
pub mod light;
pub mod math;
pub mod split;
pub mod time;
pub mod trackpad;
