//! Input modes and the routing of keymap mouse buttons.
use vstd::prelude::*;

verus! {

/// Input Mode of the legacy mouse.
pub const MODE_LEGACY: u8 = 0;

/// Input Mode of the precision touchpad.
pub const MODE_PTP: u8 = 3;

/// Most trackpads on one device.
pub const MAX_TRACKPADS: usize = 4;

/// The mode that the host selected for each trackpad. Two trackpads of one
/// device can run in different modes.
#[derive(Clone, Copy, Debug)]
pub struct TrackpadModes {
    pub slots: [u8; 4],
}

/// Where the keymap's mouse buttons 1 to 3 go: to the trackpad with this id, or
/// to the composite mouse report. There is one destination, because hosts may
/// coalesce clicks that come from two devices.
#[derive(Clone, Copy, Debug, PartialEq, Eq)]
pub struct MouseButtonRouting {
    pub destination: Option<u8>,
}

/// The slot of the trackpad with this id. Ids out of range share the last one.
pub open spec fn slot_of(id: u8) -> int {
    if id < MAX_TRACKPADS {
        id as int
    } else {
        MAX_TRACKPADS - 1
    }
}

/// The mode that a written Input Mode value selects: anything but the
/// touchpad's own is the legacy mouse.
pub open spec fn selected_mode(value: u8) -> u8 {
    if value == MODE_PTP {
        MODE_PTP
    } else {
        MODE_LEGACY
    }
}

/// The buttons within `mask` that go to the trackpad with this id.
pub open spec fn routed(
    routing: MouseButtonRouting,
    id: u8,
    mouse_buttons: u8,
    mask: u8,
) -> u8 {
    if routing.destination == Some(id) {
        mouse_buttons & mask
    } else {
        0
    }
}

impl TrackpadModes {
    /// Every slot holds one of the two modes.
    pub open spec fn wf(self) -> bool {
        forall|i: int|
            0 <= i < MAX_TRACKPADS ==> #[trigger] self.slots@[i] == MODE_LEGACY || self.slots@[i]
                == MODE_PTP
    }

    /// The mode of the trackpad with this id.
    pub open spec fn mode_of(self, id: u8) -> u8 {
        self.slots@[slot_of(id)]
    }

    /// Every trackpad in legacy mode, as at boot.
    pub fn new() -> (modes: Self)
        ensures
            modes.slots@ == seq![MODE_LEGACY, MODE_LEGACY, MODE_LEGACY, MODE_LEGACY],
            modes.wf(),
    {
        let slots: [u8; 4] = [MODE_LEGACY, MODE_LEGACY, MODE_LEGACY, MODE_LEGACY];
        assert(slots@ =~= seq![MODE_LEGACY, MODE_LEGACY, MODE_LEGACY, MODE_LEGACY]);
        Self { slots }
    }

    /// The mode of the trackpad with this id.
    pub fn load(&self, id: u8) -> (mode: u8)
        ensures
            mode == self.mode_of(id),
    {
        self.slots[slot(id)]
    }

    /// Sets the mode of the trackpad with this id.
    pub fn store(&mut self, id: u8, mode: u8)
        ensures
            final(self).slots@ == old(self).slots@.update(slot_of(id), mode),
    {
        self.slots[slot(id)] = mode;
    }
}

impl Default for TrackpadModes {
    /// Every trackpad in legacy mode.
    fn default() -> (modes: Self)
        ensures
            modes.slots@ == seq![MODE_LEGACY, MODE_LEGACY, MODE_LEGACY, MODE_LEGACY],
    {
        Self::new()
    }
}

/// The slot of the trackpad with this id; see [`slot_of`].
pub fn slot(id: u8) -> (index: usize)
    ensures
        index == slot_of(id),
{
    if (id as usize) < MAX_TRACKPADS {
        id as usize
    } else {
        MAX_TRACKPADS - 1
    }
}

impl Default for MouseButtonRouting {
    /// The composite mouse report.
    fn default() -> (routing: Self)
        ensures
            routing.destination is None,
    {
        Self { destination: None }
    }
}

/// The destination that a target stands for: itself if a trackpad can have that id.
pub open spec fn destination_of(target: Option<u8>) -> Option<u8> {
    match target {
        Some(id) if id < MAX_TRACKPADS => Some(id),
        _ => None,
    }
}

/// Sets the destination of the keymap's mouse buttons. An id that no trackpad
/// can have means the composite mouse report, as `None` does.
pub fn set_mouse_button_destination(routing: &mut MouseButtonRouting, target: Option<u8>)
    ensures
        final(routing).destination == destination_of(target),
{
    routing.destination = match target {
        Some(id) if (id as usize) < MAX_TRACKPADS => Some(id),
        _ => None,
    };
}

/// The composite mouse report has to leave its buttons out.
pub open spec fn suppresses(routing: MouseButtonRouting) -> bool {
    routing.destination is Some
}

/// Whether the composite mouse report has to leave its buttons out, because
/// they go to a trackpad.
pub fn composite_should_suppress_mouse_buttons(routing: &MouseButtonRouting) -> (suppress: bool)
    ensures
        suppress == suppresses(*routing),
{
    routing.destination.is_some()
}

/// Whether the buttons go to the trackpad with this id.
pub fn destination_matches(routing: &MouseButtonRouting, id: u8) -> (matches: bool)
    ensures
        matches == (routing.destination == Some(id)),
{
    match routing.destination {
        Some(target) => target == id,
        None => false,
    }
}

/// The buttons reach one device only: no two trackpads both get them, and a
/// trackpad that gets any has them taken from the composite mouse report.
pub proof fn buttons_have_one_destination(
    routing: MouseButtonRouting,
    first: u8,
    second: u8,
    mouse_buttons: u8,
    mask: u8,
)
    ensures
        routed(routing, first, mouse_buttons, mask) != 0 && routed(
            routing,
            second,
            mouse_buttons,
            mask,
        ) != 0 ==> first == second,
        routed(routing, first, mouse_buttons, mask) != 0 ==> routing.destination is Some,
{
}

/// Routed buttons are never more than buttons 1 to 3, and never any that the
/// keymap does not hold down.
pub proof fn routed_buttons_are_masked(routing: MouseButtonRouting, id: u8, mouse_buttons: u8)
    ensures
        routed(routing, id, mouse_buttons, 0b111) <= 0b111,
        routed(routing, id, mouse_buttons, 0b111) & mouse_buttons == routed(
            routing,
            id,
            mouse_buttons,
            0b111,
        ),
{
    assert((mouse_buttons & 0b111) <= 0b111 && (mouse_buttons & 0b111) & mouse_buttons
        == mouse_buttons & 0b111 && 0u8 & mouse_buttons == 0) by (bit_vector);
}

/// The two modes have the values that hosts know them by.
pub proof fn modes_have_their_values()
    ensures
        MODE_LEGACY == 0,
        MODE_PTP == 3,
{
}

/// Each of four trackpads has the slot of its number; any other id has the last.
pub proof fn trackpads_have_their_slots(id: u8)
    ensures
        id < 4 ==> slot_of(id) == id,
        id >= 4 ==> slot_of(id) == 3,
{
}

/// A slot gives back the mode that was stored in it, and storing one leaves the
/// other trackpads alone.
pub proof fn slots_give_their_mode_back(
    before: TrackpadModes,
    after: TrackpadModes,
    id: u8,
    other: u8,
    mode: u8,
)
    requires
        after.slots@ == before.slots@.update(slot_of(id), mode),
    ensures
        after.mode_of(id) == mode,
        id < 4 && other < 4 && id != other ==> after.mode_of(other) == before.mode_of(other),
        id < 4 ==> before.mode_of(id) == before.slots@[id as int],
{
}

/// Writing 3 selects the touchpad, and anything else the mouse.
pub proof fn only_three_selects_the_touchpad(value: u8)
    ensures
        selected_mode(value) == (if value == 3 {
            3u8
        } else {
            0
        }),
{
}

/// The trackpad that the buttons go to gets those that the mask lets through, and
/// every other trackpad gets none.
pub proof fn destination_gets_the_buttons(
    routing: MouseButtonRouting,
    id: u8,
    mouse_buttons: u8,
)
    ensures
        routed(routing, id, mouse_buttons, 0b111) == (if routing.destination == Some(id) {
            mouse_buttons % 8
        } else {
            0
        }),
        routed(routing, id, mouse_buttons, 0xFF) == (if routing.destination == Some(id) {
            mouse_buttons
        } else {
            0
        }),
{
    assert(mouse_buttons & 0b111 == mouse_buttons % 8 && mouse_buttons & 0xFF == mouse_buttons)
        by (bit_vector);
}

/// One of the four trackpads is taken as a destination, and nothing else is.
pub proof fn only_trackpads_are_destinations(id: u8)
    ensures
        id < 4 ==> destination_of(Some(id)) == Some(id),
        id >= 4 ==> destination_of(Some(id)) is None,
        destination_of(None) is None,
{
}

/// The composite mouse report has the buttons exactly if no trackpad gets them.
pub proof fn buttons_are_reported_once(routing: MouseButtonRouting, id: u8, mouse_buttons: u8)
    requires
        mouse_buttons % 8 != 0,
    ensures
        routed(routing, id, mouse_buttons, 0b111) != 0 ==> suppresses(routing),
        !suppresses(routing) ==> routed(routing, id, mouse_buttons, 0b111) == 0,
        suppresses(routing) ==> routed(routing, routing.destination->0, mouse_buttons, 0b111) != 0,
{
    destination_gets_the_buttons(routing, id, mouse_buttons);
    if routing.destination is Some {
        destination_gets_the_buttons(routing, routing.destination->0, mouse_buttons);
    }
}

} // verus!
