//! Keyboard, modifier, pointing-device and trackpad events.
use vstd::prelude::*;

verus! {

/// Which way a rotary encoder turned.
#[derive(Clone, Copy, Debug, PartialEq, Eq, Structural)]
pub enum Direction {
    Clockwise,
    CounterClockwise,
}

/// A key or encoder transition whose action is looked up in the keymap.
///
/// Events of pointing devices go straight to their processors; this one is
/// handled by the keyboard with the keymap.
#[derive(Clone, Copy, Debug, PartialEq, Eq, Structural)]
pub struct KeyboardEvent {
    pub pressed: bool,
    pub pos: KeyboardEventPos,
}

/// Where a keyboard event happened: at a key, or at a rotary encoder.
#[derive(Clone, Copy, Debug, PartialEq, Eq, Structural)]
pub enum KeyboardEventPos {
    Key(KeyPos),
    RotaryEncoder(RotaryEncoderPos),
}

/// A position in the key matrix.
#[derive(Clone, Copy, Debug, PartialEq, Eq, Structural)]
pub struct KeyPos {
    pub row: u8,
    pub col: u8,
}

/// A rotary encoder and the direction it turned in.
#[derive(Clone, Copy, Debug, PartialEq, Eq, Structural)]
pub struct RotaryEncoderPos {
    /// The id of the rotary encoder
    pub id: u8,
    /// The direction of the rotary encoder
    pub direction: Direction,
}

impl KeyboardEvent {
    /// The event of the key at (`row`, `col`).
    pub fn key(row: u8, col: u8, pressed: bool) -> (event: Self)
        ensures
            event.pressed == pressed,
            event.pos == KeyboardEventPos::Key(KeyPos { row, col }),
    {
        Self { pressed, pos: KeyboardEventPos::Key(KeyPos { row, col }) }
    }

    /// The event of rotary encoder `id` turning in `direction`.
    pub fn rotary_encoder(id: u8, direction: Direction, pressed: bool) -> (event: Self)
        ensures
            event.pressed == pressed,
            event.pos == KeyboardEventPos::RotaryEncoder(RotaryEncoderPos { id, direction }),
    {
        Self {
            pressed,
            pos: KeyboardEventPos::RotaryEncoder(RotaryEncoderPos { id, direction }),
        }
    }
}

impl KeyboardEventPos {
    /// The position of the key at (`row`, `col`). Note the order: column first.
    pub fn key_pos(col: u8, row: u8) -> (pos: Self)
        ensures
            pos == KeyboardEventPos::Key(KeyPos { row, col }),
    {
        Self::Key(KeyPos { row, col })
    }

    /// The position of rotary encoder `id` turning in `direction`.
    pub fn rotary_encoder_pos(id: u8, direction: Direction) -> (pos: Self)
        ensures
            pos == KeyboardEventPos::RotaryEncoder(RotaryEncoderPos { id, direction }),
    {
        Self::RotaryEncoder(RotaryEncoderPos { id, direction })
    }
}

/// A set of modifier keys, one bit per key.
#[derive(Clone, Copy, Debug, PartialEq, Eq, Structural)]
pub struct ModifierCombination {
    bits: u8,
}

impl ModifierCombination {
    /// The bitmap of the set.
    pub closed spec fn spec_bits(self) -> u8 {
        self.bits
    }

    /// The set with the given bitmap.
    pub fn from_bits(bits: u8) -> (set: Self)
        ensures
            set.spec_bits() == bits,
    {
        Self { bits }
    }

    /// The bitmap of the set.
    pub fn into_bits(self) -> (bits: u8)
        ensures
            bits == self.spec_bits(),
    {
        self.bits
    }
}

/// The set of modifiers in effect has changed.
#[derive(Clone, Copy, Debug, PartialEq, Eq, Structural)]
pub struct ModifierEvent {
    pub modifier: ModifierCombination,
}

/// The bitmap of keymap-driven mouse buttons has changed. Bit 0 is the left
/// button, as in the `buttons` field of a mouse HID report.
///
/// Lets a subscriber surface a button transition while no other input is in
/// flight.
#[derive(Clone, Copy, Debug, PartialEq, Eq, Structural)]
pub struct MouseButtonsEvent {
    pub buttons: u8,
}

/// Motion of a pointing device on up to three axes.
#[derive(Clone, Copy, Debug, PartialEq, Eq)]
pub struct PointingEvent(pub [AxisEvent; 3]);

/// The value of one axis.
#[derive(Clone, Copy, Debug, PartialEq, Eq, Structural)]
pub struct AxisEvent {
    /// The axis event value type, relative or absolute
    pub typ: AxisValType,
    /// The axis name
    pub axis: Axis,
    /// Value of the axis event
    pub value: i16,
}

/// Whether an axis value is a displacement or a position.
#[derive(Clone, Copy, Debug, PartialEq, Eq, Structural)]
pub enum AxisValType {
    /// The axis value is relative
    Rel,
    /// The axis value is absolute
    Abs,
}

/// The axes of a pointing device.
#[derive(Clone, Copy, Debug, PartialEq, Eq, Structural)]
#[non_exhaustive]
pub enum Axis {
    X,
    Y,
    Z,
    H,
    V,
}

/// Set the resolution of a pointing device.
#[derive(Clone, Copy, Debug, PartialEq, Eq, Structural)]
pub struct PointingSetCpiEvent {
    pub device_id: u8,
    pub cpi: u16,
}

/// Most finger contacts that one [`TrackpadEvent`] carries.
pub const TRACKPAD_MAX_FINGERS: usize = 5;

/// One finger's absolute state within a [`TrackpadEvent`].
#[derive(Clone, Copy, Debug, PartialEq, Eq, Structural)]
pub struct TrackpadFinger {
    /// Identity of the touch, stable from touch-down to lift.
    pub id: u8,
    /// Absolute X position in chip units.
    pub x: u16,
    /// Absolute Y position in chip units.
    pub y: u16,
    /// Touch strength; higher is firmer.
    pub touch_strength: u16,
    /// Touch area in chip channels; larger is a bigger blob.
    pub area: u8,
    /// The contact is on the surface. A `false` record carries the last known
    /// position of a contact that has just lifted.
    pub tip: bool,
    /// The contact is a finger rather than a palm or water.
    pub confidence: bool,
}

impl Default for TrackpadFinger {
    /// A record with nothing set.
    fn default() -> (finger: Self)
        ensures
            finger == (TrackpadFinger {
                id: 0,
                x: 0,
                y: 0,
                touch_strength: 0,
                area: 0,
                tip: false,
                confidence: false,
            }),
    {
        Self { id: 0, x: 0, y: 0, touch_strength: 0, area: 0, tip: false, confidence: false }
    }
}

/// The finger records of one scan cycle, held in a `heapless::Vec` of capacity
/// [`TRACKPAD_MAX_FINGERS`].
#[verifier::external_body]
#[derive(Debug)]
pub struct TrackpadFingers {
    records: heapless::Vec<TrackpadFinger, 5>,
}

/// The records in `fingers`, oldest first.
pub uninterp spec fn finger_records(fingers: TrackpadFingers) -> Seq<TrackpadFinger>;

impl View for TrackpadFingers {
    type V = Seq<TrackpadFinger>;

    open spec fn view(&self) -> Seq<TrackpadFinger> {
        finger_records(*self)
    }
}

/// `heapless::Vec::new`: a vector without elements.
#[verifier::external_body]
fn heapless_new() -> (fingers: TrackpadFingers)
    ensures
        finger_records(fingers) == Seq::<TrackpadFinger>::empty(),
{
    TrackpadFingers { records: heapless::Vec::new() }
}

/// `heapless::Vec::push`: appends `finger` below the capacity, and hands it
/// back with the vector unchanged otherwise.
#[verifier::external_body]
fn heapless_push(fingers: &mut TrackpadFingers, finger: TrackpadFinger) -> (result: Result<
    (),
    TrackpadFinger,
>)
    ensures
        finger_records(*old(fingers)).len() < TRACKPAD_MAX_FINGERS ==> {
            &&& result == Ok::<(), TrackpadFinger>(())
            &&& finger_records(*final(fingers)) == finger_records(*old(fingers)).push(finger)
        },
        finger_records(*old(fingers)).len() >= TRACKPAD_MAX_FINGERS ==> {
            &&& result == Err::<(), TrackpadFinger>(finger)
            &&& finger_records(*final(fingers)) == finger_records(*old(fingers))
        },
{
    fingers.records.push(finger)
}

/// `heapless::Vec::as_slice`: the elements in order, never more than the
/// capacity.
#[verifier::external_body]
fn heapless_as_slice(fingers: &TrackpadFingers) -> (records: &[TrackpadFinger])
    ensures
        records@ == finger_records(*fingers),
        records@.len() <= TRACKPAD_MAX_FINGERS,
{
    fingers.records.as_slice()
}

impl TrackpadFingers {
    /// No records.
    pub fn new() -> (fingers: Self)
        ensures
            fingers@ == Seq::<TrackpadFinger>::empty(),
    {
        heapless_new()
    }

    /// Appends `finger` if there is room, and hands it back otherwise.
    pub fn push(&mut self, finger: TrackpadFinger) -> (result: Result<(), TrackpadFinger>)
        ensures
            old(self)@.len() < TRACKPAD_MAX_FINGERS ==> {
                &&& result == Ok::<(), TrackpadFinger>(())
                &&& final(self)@ == old(self)@.push(finger)
            },
            old(self)@.len() >= TRACKPAD_MAX_FINGERS ==> {
                &&& result == Err::<(), TrackpadFinger>(finger)
                &&& final(self)@ == old(self)@
            },
    {
        heapless_push(self, finger)
    }

    /// The records in order.
    pub fn as_slice(&self) -> (records: &[TrackpadFinger])
        ensures
            records@ == self@,
            records@.len() <= TRACKPAD_MAX_FINGERS,
    {
        heapless_as_slice(self)
    }
}

impl Default for TrackpadFingers {
    /// No records.
    fn default() -> (fingers: Self)
        ensures
            fingers@ == Seq::<TrackpadFinger>::empty(),
    {
        Self::new()
    }
}

impl Clone for TrackpadFingers {
    /// The same records again.
    fn clone(&self) -> (copy: Self)
        ensures
            copy@ == self@,
    {
        let records = self.as_slice();
        let mut copy = TrackpadFingers::new();
        let mut i: usize = 0;
        while i < records.len()
            invariant
                records@ == self@,
                records@.len() <= TRACKPAD_MAX_FINGERS,
                i <= records@.len(),
                copy@ == records@.take(i as int),
            decreases records@.len() - i,
        {
            let _ = copy.push(records[i]);
            assert(records@.take(i + 1) == records@.take(i as int).push(records@[i as int]));
            i = i + 1;
        }
        assert(records@.take(i as int) == records@);
        copy
    }
}

/// Raw output of one trackpad scan cycle, before any gesture is read from it.
#[derive(Debug)]
pub struct TrackpadEvent {
    /// Per-finger absolute state.
    pub fingers: TrackpadFingers,
}

impl Default for TrackpadEvent {
    /// A frame without records.
    fn default() -> (event: Self)
        ensures
            event.fingers@ == Seq::<TrackpadFinger>::empty(),
    {
        TrackpadEvent { fingers: TrackpadFingers::new() }
    }
}

impl Clone for TrackpadEvent {
    /// An event with the same records.
    fn clone(&self) -> (copy: Self)
        ensures
            copy.fingers@ == self.fingers@,
    {
        TrackpadEvent { fingers: self.fingers.clone() }
    }
}

} // verus!
