//! Events that mirror keyboard state.
use vstd::prelude::*;

verus! {

/// The active layer has changed.
#[derive(Clone, Copy, Debug, PartialEq, Eq, Structural)]
pub struct LayerChangeEvent(pub u8);

/// The host's lock indicators, one bit each, as in the keyboard's HID output
/// report: num-lock in bit 0, caps-lock in bit 1, scroll-lock in bit 2.
#[derive(Clone, Copy, Debug, PartialEq, Eq, Structural)]
pub struct LedIndicator {
    bits: u8,
}

/// The bitmap has num-lock on.
pub open spec fn num_lock_in(bits: u8) -> bool {
    bits & 0b001 != 0
}

/// The bitmap has caps-lock on.
pub open spec fn caps_lock_in(bits: u8) -> bool {
    bits & 0b010 != 0
}

/// The bitmap has scroll-lock on.
pub open spec fn scroll_lock_in(bits: u8) -> bool {
    bits & 0b100 != 0
}

impl LedIndicator {
    /// The bitmap of the indicators.
    pub closed spec fn spec_bits(self) -> u8 {
        self.bits
    }

    /// The indicators with the given bitmap.
    pub fn from_bits(bits: u8) -> (indicator: Self)
        ensures
            indicator.spec_bits() == bits,
    {
        Self { bits }
    }

    /// The bitmap of the indicators.
    pub fn into_bits(self) -> (bits: u8)
        ensures
            bits == self.spec_bits(),
    {
        self.bits
    }

    /// Whether num-lock is on.
    pub fn num_lock(self) -> (on: bool)
        ensures
            on == num_lock_in(self.spec_bits()),
    {
        self.bits & 0b001 != 0
    }

    /// Whether caps-lock is on.
    pub fn caps_lock(self) -> (on: bool)
        ensures
            on == caps_lock_in(self.spec_bits()),
    {
        self.bits & 0b010 != 0
    }

    /// Whether scroll-lock is on.
    pub fn scroll_lock(self) -> (on: bool)
        ensures
            on == scroll_lock_in(self.spec_bits()),
    {
        self.bits & 0b100 != 0
    }
}

/// The host's lock indicators have changed.
#[derive(Clone, Copy, Debug, PartialEq, Eq, Structural)]
pub struct LedIndicatorEvent(pub LedIndicator);

/// Caps-word was switched on or off.
#[derive(Clone, Copy, Debug, PartialEq, Eq, Structural)]
pub struct CapsWordEvent(pub bool);

/// The typing speed has changed.
#[derive(Clone, Copy, Debug, PartialEq, Eq, Structural)]
pub struct WpmUpdateEvent(pub u16);

/// The keyboard fell asleep or woke up.
#[derive(Clone, Copy, Debug, PartialEq, Eq, Structural)]
pub struct SleepStateEvent(pub bool);

/// The charger was connected or disconnected.
#[derive(Clone, Copy, Debug, PartialEq, Eq, Structural)]
pub struct ChargingStateEvent {
    pub charging: bool,
}

/// Which way the charge of a battery goes.
#[derive(Clone, Copy, Debug, PartialEq, Eq, Structural)]
pub enum ChargeState {
    Charging,
    Discharging,
    Unknown,
}

/// What is known of a battery.
#[derive(Clone, Copy, Debug, PartialEq, Eq, Structural)]
pub enum BatteryStatus {
    Unavailable,
    Available { charge_state: ChargeState, level: Option<u8> },
}

/// The status of the battery has changed.
#[derive(Clone, Copy, Debug, PartialEq, Eq, Structural)]
pub struct BatteryStatusEvent(pub BatteryStatus);

/// The lock indicators are the binary digits of the bitmap: num-lock counts one,
/// caps-lock two and scroll-lock four.
pub proof fn indicators_are_binary_digits(bits: u8)
    ensures
        num_lock_in(bits) <==> bits % 2 == 1,
        caps_lock_in(bits) <==> bits / 2 % 2 == 1,
        scroll_lock_in(bits) <==> bits / 4 % 2 == 1,
{
    assert((bits & 0b001 != 0) == (bits % 2 == 1)) by (bit_vector);
    assert((bits & 0b010 != 0) == (bits / 2 % 2 == 1)) by (bit_vector);
    assert((bits & 0b100 != 0) == (bits / 4 % 2 == 1)) by (bit_vector);
}

} // verus!
