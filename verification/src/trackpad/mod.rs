//! Trackpad HID output.
//!
//! Turns the multi-touch frames of a trackpad driver into HID reports on an
//! interface of its own. Two reports share that interface: a legacy mouse
//! (report id `0x01`), which is the mode at boot, and a precision touchpad
//! (report id `0x05`), which the host selects by writing Input Mode 3 to
//! feature report `0x08`.
pub mod descriptor;
pub mod laws;
pub mod legacy;
pub mod mode;
pub mod mouse_laws;
pub mod params;
pub mod processor;
pub mod ptp;
pub mod report;
pub mod request;
pub mod touchpad_laws;
