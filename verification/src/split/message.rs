//! What the halves say to each other.
use crate::event::input::{KeyboardEvent, PointingEvent, TrackpadEvent};
use crate::event::state::BatteryStatusEvent;
use crate::light::split_link::LightingFrameBytes;
use vstd::prelude::*;

verus! {

/// A message between the central and a peripheral. `C` is the snapshot of the
/// central's connections, which the link carries as it is.
#[derive(Clone, Debug)]
pub enum SplitMessage<C> {
    /// A key or encoder event, to the central.
    Key(KeyboardEvent),
    /// A pointing-device event, to the central.
    Pointing(PointingEvent),
    /// A trackpad frame, to the central. Serial links only: a frame is too long
    /// for a BLE message.
    Trackpad(TrackpadEvent),
    /// An LED switched on or off, to the peripheral.
    LedState(bool),
    /// The central's connections, to the peripheral.
    ConnectionStatus(C),
    /// A BLE address, in both directions.
    Address([u8; 6]),
    /// Forget the saved peer, to the peripheral.
    ClearPeer,
    /// The host's lock indicators, to the peripheral.
    KeyboardIndicator(u8),
    /// The active layer, to the peripheral.
    Layer(u8),
    /// The typing speed, to a peripheral with a display.
    Wpm(u16),
    /// The modifiers in effect, to a peripheral with a display.
    Modifier(u8),
    /// The sleep state, to a peripheral with a display.
    SleepState(bool),
    /// The battery of the peripheral, to the central. BLE links only.
    BatteryStatus(BatteryStatusEvent),
    /// A lighting frame, to a peripheral with LEDs. Serial links only.
    LightingFrame(LightingFrameBytes),
    /// A sign of life, to the central. Serial links only.
    Heartbeat,
}

/// Why reading from the link failed.
#[derive(Clone, Copy, Debug, PartialEq, Eq, Structural)]
pub enum SplitDriverError {
    SerialError,
    EmptyMessage,
    DeserializeError,
    SerializeError,
    BleError(u8),
    Disconnected,
}

/// The address of the peer that a half is bound to.
#[derive(Clone, Copy, Debug, PartialEq, Eq)]
pub struct PeerAddress {
    pub peer_id: u8,
    pub is_valid: bool,
    pub address: [u8; 6],
}

impl PeerAddress {
    /// The address with these parts.
    pub fn new(peer_id: u8, is_valid: bool, address: [u8; 6]) -> (peer: Self)
        ensures
            peer == (PeerAddress { peer_id, is_valid, address }),
    {
        Self { peer_id, is_valid, address }
    }
}

} // verus!
