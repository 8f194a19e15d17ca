//! The decisions of the peripheral half.
//!
//! The firmware waits for a message from the central or for an event of its
//! own, asks what to do about it, and does it.
use super::message::{PeerAddress, SplitDriverError, SplitMessage};
use crate::event::input::{
    KeyboardEvent, ModifierCombination, ModifierEvent, PointingEvent, TrackpadEvent,
};
use crate::event::state::{
    BatteryStatus, BatteryStatusEvent, ChargeState, ChargingStateEvent, LayerChangeEvent,
    LedIndicator, LedIndicatorEvent, SleepStateEvent, WpmUpdateEvent,
};
use crate::light::split_link::LightingFrameBytes;
use vstd::prelude::*;

verus! {

/// What a peripheral is built with.
#[derive(Clone, Copy, Debug, PartialEq, Eq, Structural)]
pub struct PeripheralFeatures {
    /// The link is BLE; otherwise it is serial.
    pub ble: bool,
    pub storage: bool,
    pub display: bool,
    pub rgb_lighting: bool,
}

/// An event of the peripheral itself. Where several are there at once, the
/// firmware takes them in this order.
#[derive(Debug)]
pub enum LocalEvent {
    Key(KeyboardEvent),
    Charging(ChargingStateEvent),
    Pointing(PointingEvent),
    Trackpad(TrackpadEvent),
    /// The heartbeat interval has passed.
    HeartbeatDue,
    Battery(BatteryStatusEvent),
}

/// What the peripheral does about a message or an event.
#[derive(Debug)]
pub enum PeripheralAction<C> {
    /// Take over the central's connections.
    UpdateStatus(C),
    /// Save this peer address.
    SavePeer(PeerAddress),
    PublishLedIndicator(LedIndicatorEvent),
    PublishLayerChange(LayerChangeEvent),
    PublishWpm(WpmUpdateEvent),
    PublishModifier(ModifierEvent),
    PublishSleepState(SleepStateEvent),
    /// Hand the frame to the lighting receiver, or drop it if that still has one.
    OfferLightingFrame(LightingFrameBytes),
    /// Send this message to the central.
    Send(SplitMessage<C>),
    /// Go on waiting.
    Wait,
    /// Leave the loop: the link is gone.
    Stop,
}

/// The charge state that a charger event tells.
pub open spec fn charge_state_of(charging: bool) -> ChargeState {
    if charging {
        ChargeState::Charging
    } else {
        ChargeState::Discharging
    }
}

/// `action` is what a peripheral with `features` does about `message` from the
/// central. What does not concern it, it passes over.
pub open spec fn answers<C>(
    features: PeripheralFeatures,
    message: SplitMessage<C>,
    action: PeripheralAction<C>,
) -> bool {
    match message {
        SplitMessage::ConnectionStatus(status) => action == PeripheralAction::UpdateStatus(status),
        SplitMessage::ClearPeer if features.ble && features.storage => action matches
            PeripheralAction::<C>::SavePeer(peer) && peer.peer_id == 0 && !peer.is_valid
            && peer.address@ == seq![0u8, 0, 0, 0, 0, 0],
        SplitMessage::KeyboardIndicator(bits) => action matches
            PeripheralAction::<C>::PublishLedIndicator(event) && event.0.spec_bits() == bits,
        SplitMessage::Layer(layer) => action == PeripheralAction::<C>::PublishLayerChange(
            LayerChangeEvent(layer),
        ),
        SplitMessage::Wpm(wpm) if features.display => action
            == PeripheralAction::<C>::PublishWpm(WpmUpdateEvent(wpm)),
        SplitMessage::Modifier(bits) if features.display => action matches
            PeripheralAction::<C>::PublishModifier(event) && event.modifier.spec_bits() == bits,
        SplitMessage::SleepState(sleeping) if features.display => action
            == PeripheralAction::<C>::PublishSleepState(SleepStateEvent(sleeping)),
        SplitMessage::LightingFrame(frame) if features.rgb_lighting && !features.ble => action
            == PeripheralAction::<C>::OfferLightingFrame(frame),
        _ => action == PeripheralAction::<C>::Wait,
    }
}

/// The message that a peripheral with `features` sends for an event of its own,
/// if the link has one for it.
pub open spec fn message_of<C>(features: PeripheralFeatures, event: LocalEvent) -> Option<
    SplitMessage<C>,
> {
    match event {
        LocalEvent::Key(e) => Some(SplitMessage::Key(e)),
        LocalEvent::Charging(e) if features.ble => Some(
            SplitMessage::BatteryStatus(
                BatteryStatusEvent(
                    BatteryStatus::Available {
                        charge_state: charge_state_of(e.charging),
                        level: None,
                    },
                ),
            ),
        ),
        LocalEvent::Pointing(e) => Some(SplitMessage::Pointing(e)),
        LocalEvent::Trackpad(e) if !features.ble => Some(SplitMessage::Trackpad(e)),
        LocalEvent::HeartbeatDue if !features.ble => Some(SplitMessage::Heartbeat),
        LocalEvent::Battery(e) if features.ble => Some(SplitMessage::BatteryStatus(e)),
        _ => None,
    }
}

/// What a peripheral with `features` does about an event of its own.
pub open spec fn event_action<C>(
    features: PeripheralFeatures,
    event: LocalEvent,
) -> PeripheralAction<C> {
    match message_of::<C>(features, event) {
        Some(message) => PeripheralAction::Send(message),
        None => PeripheralAction::Wait,
    }
}

/// What a peripheral does about a failed read.
pub open spec fn read_error_action<C>(error: SplitDriverError) -> PeripheralAction<C> {
    if error is Disconnected {
        PeripheralAction::Stop
    } else {
        PeripheralAction::Wait
    }
}

/// What to do about a message from the central.
pub fn on_message<C>(features: PeripheralFeatures, message: SplitMessage<C>) -> (action:
    PeripheralAction<C>)
    ensures
        answers(features, message, action),
{
    match message {
        SplitMessage::ConnectionStatus(status) => PeripheralAction::UpdateStatus(status),
        SplitMessage::ClearPeer => if features.ble && features.storage {
            let address: [u8; 6] = [0, 0, 0, 0, 0, 0];
            assert(address@ =~= seq![0u8, 0, 0, 0, 0, 0]);
            PeripheralAction::SavePeer(PeerAddress::new(0, false, address))
        } else {
            PeripheralAction::Wait
        },
        SplitMessage::KeyboardIndicator(bits) => PeripheralAction::PublishLedIndicator(
            LedIndicatorEvent(LedIndicator::from_bits(bits)),
        ),
        SplitMessage::Layer(layer) => PeripheralAction::PublishLayerChange(LayerChangeEvent(layer)),
        SplitMessage::Wpm(wpm) => if features.display {
            PeripheralAction::PublishWpm(WpmUpdateEvent(wpm))
        } else {
            PeripheralAction::Wait
        },
        SplitMessage::Modifier(bits) => if features.display {
            PeripheralAction::PublishModifier(
                ModifierEvent { modifier: ModifierCombination::from_bits(bits) },
            )
        } else {
            PeripheralAction::Wait
        },
        SplitMessage::SleepState(sleeping) => if features.display {
            PeripheralAction::PublishSleepState(SleepStateEvent(sleeping))
        } else {
            PeripheralAction::Wait
        },
        SplitMessage::LightingFrame(frame) => if features.rgb_lighting && !features.ble {
            PeripheralAction::OfferLightingFrame(frame)
        } else {
            PeripheralAction::Wait
        },
        _ => PeripheralAction::Wait,
    }
}

/// What to do about a failed read: stop if the link is gone, and go on
/// otherwise.
pub fn on_read_error<C>(error: SplitDriverError) -> (action: PeripheralAction<C>)
    ensures
        action == read_error_action::<C>(error),
{
    match error {
        SplitDriverError::Disconnected => PeripheralAction::Stop,
        _ => PeripheralAction::Wait,
    }
}

/// What to do about an event of the peripheral itself: send it, if the link has
/// a message for it.
pub fn on_local_event<C>(features: PeripheralFeatures, event: LocalEvent) -> (action:
    PeripheralAction<C>)
    ensures
        action == event_action::<C>(features, event),
{
    match event {
        LocalEvent::Key(e) => PeripheralAction::Send(SplitMessage::Key(e)),
        LocalEvent::Charging(e) => if features.ble {
            let charge_state = if e.charging {
                ChargeState::Charging
            } else {
                ChargeState::Discharging
            };
            PeripheralAction::Send(
                SplitMessage::BatteryStatus(
                    BatteryStatusEvent(BatteryStatus::Available { charge_state, level: None }),
                ),
            )
        } else {
            PeripheralAction::Wait
        },
        LocalEvent::Pointing(e) => PeripheralAction::Send(SplitMessage::Pointing(e)),
        LocalEvent::Trackpad(e) => if features.ble {
            PeripheralAction::Wait
        } else {
            PeripheralAction::Send(SplitMessage::Trackpad(e))
        },
        LocalEvent::HeartbeatDue => if features.ble {
            PeripheralAction::Wait
        } else {
            PeripheralAction::Send(SplitMessage::Heartbeat)
        },
        LocalEvent::Battery(e) => if features.ble {
            PeripheralAction::Send(SplitMessage::BatteryStatus(e))
        } else {
            PeripheralAction::Wait
        },
    }
}

/// A BLE link never carries the messages that only a serial link has, nor a
/// serial link those that only BLE has.
pub proof fn links_keep_to_their_messages<C>(features: PeripheralFeatures, event: LocalEvent)
    ensures
        message_of::<C>(features, event) matches Some(message) ==> {
            &&& features.ble ==> !(message is Trackpad) && !(message is Heartbeat)
            &&& !features.ble ==> !(message is BatteryStatus)
        },
{
}

/// Every key and pointing event reaches the central, on either link.
pub proof fn input_is_always_sent<C>(
    features: PeripheralFeatures,
    key: KeyboardEvent,
    pointing: PointingEvent,
)
    ensures
        message_of::<C>(features, LocalEvent::Key(key)) == Some(SplitMessage::<C>::Key(key)),
        message_of::<C>(features, LocalEvent::Pointing(pointing)) == Some(
            SplitMessage::<C>::Pointing(pointing),
        ),
{
}

/// No message from the central ends the loop or is sent back to it.
pub proof fn messages_never_stop_the_peripheral<C>(
    features: PeripheralFeatures,
    message: SplitMessage<C>,
    action: PeripheralAction<C>,
)
    requires
        answers(features, message, action),
    ensures
        !(action is Stop) && !(action is Send),
{
}

/// Every event is sent as it is, where the link has a message for it: keys and
/// pointing devices on both links, trackpad frames and heartbeats on a serial link,
/// the battery on BLE. Elsewhere nothing is done about it.
pub proof fn events_are_sent_as_they_are<C>(
    features: PeripheralFeatures,
    key: KeyboardEvent,
    pointing: PointingEvent,
    frame: TrackpadEvent,
    battery: BatteryStatusEvent,
)
    ensures
        event_action::<C>(features, LocalEvent::Key(key)) == PeripheralAction::<C>::Send(
            SplitMessage::Key(key),
        ),
        event_action::<C>(features, LocalEvent::Pointing(pointing)) == PeripheralAction::<C>::Send(
            SplitMessage::Pointing(pointing),
        ),
        !features.ble ==> {
            &&& event_action::<C>(features, LocalEvent::Trackpad(frame)) == PeripheralAction::<
                C,
            >::Send(SplitMessage::Trackpad(frame))
            &&& event_action::<C>(features, LocalEvent::HeartbeatDue) == PeripheralAction::<
                C,
            >::Send(SplitMessage::Heartbeat)
            &&& event_action::<C>(features, LocalEvent::Battery(battery)) is Wait
        },
        features.ble ==> {
            &&& event_action::<C>(features, LocalEvent::Battery(battery)) == PeripheralAction::<
                C,
            >::Send(SplitMessage::BatteryStatus(battery))
            &&& event_action::<C>(features, LocalEvent::Trackpad(frame)) is Wait
            &&& event_action::<C>(features, LocalEvent::HeartbeatDue) is Wait
        },
{
}

/// A charger tells on a BLE link that the battery charges while it is connected and
/// discharges otherwise, at an unknown level, and tells nothing on a serial link.
pub proof fn charger_tells_the_charge_state<C>(features: PeripheralFeatures, charging: bool)
    ensures
        ({
            let action = event_action::<C>(
                features,
                LocalEvent::Charging(ChargingStateEvent { charging }),
            );
            if features.ble {
                action matches PeripheralAction::<C>::Send(message) && message matches
                    SplitMessage::<C>::BatteryStatus(status) && status.0 matches
                    BatteryStatus::Available { charge_state, level } && level is None && (
                charging ==> charge_state is Charging) && (!charging ==> charge_state
                    is Discharging)
            } else {
                action is Wait
            }
        }),
{
}

/// A heartbeat is sent when it is due and at no other time; a trackpad frame goes
/// out for a trackpad event only, and so on: what is sent is of the kind of the
/// event.
pub proof fn messages_are_of_the_kind_of_their_event<C>(
    features: PeripheralFeatures,
    event: LocalEvent,
    message: SplitMessage<C>,
)
    requires
        event_action::<C>(features, event) == PeripheralAction::<C>::Send(message),
    ensures
        message is Heartbeat <==> event is HeartbeatDue,
        message is Trackpad <==> event is Trackpad,
        message is Key <==> event is Key,
        message is Pointing <==> event is Pointing,
        message is BatteryStatus <==> event is Battery || event is Charging,
{
}

/// The peripheral stops if the link is gone, and for no other failure.
pub proof fn only_a_lost_link_stops<C>(error: SplitDriverError)
    ensures
        read_error_action::<C>(error) is Stop <==> error == SplitDriverError::Disconnected,
        read_error_action::<C>(error) is Wait <==> error != SplitDriverError::Disconnected,
{
}

/// What the central says is published as it was said: its connections, the lock
/// indicators and the layer always; the typing speed, the modifiers and the sleep
/// state with a display; a lighting frame with LEDs on a serial link.
pub proof fn messages_are_published_as_they_are<C>(
    features: PeripheralFeatures,
    message: SplitMessage<C>,
    action: PeripheralAction<C>,
)
    requires
        answers(features, message, action),
    ensures
        message matches SplitMessage::ConnectionStatus(status) ==> action
            == PeripheralAction::UpdateStatus(status),
        message matches SplitMessage::KeyboardIndicator(bits) ==> (action matches
            PeripheralAction::<C>::PublishLedIndicator(event) && event.0.spec_bits() == bits),
        message matches SplitMessage::Layer(layer) ==> (action matches
            PeripheralAction::<C>::PublishLayerChange(event) && event.0 == layer),
        message matches SplitMessage::Wpm(wpm) ==> if features.display {
            action matches PeripheralAction::<C>::PublishWpm(event) && event.0 == wpm
        } else {
            action is Wait
        },
        message matches SplitMessage::Modifier(bits) ==> if features.display {
            action matches PeripheralAction::<C>::PublishModifier(event)
                && event.modifier.spec_bits() == bits
        } else {
            action is Wait
        },
        message matches SplitMessage::SleepState(sleeping) ==> if features.display {
            action matches PeripheralAction::<C>::PublishSleepState(event) && event.0 == sleeping
        } else {
            action is Wait
        },
        message matches SplitMessage::LightingFrame(frame) ==> if features.rgb_lighting
            && !features.ble {
            action matches PeripheralAction::<C>::OfferLightingFrame(offered) && offered == frame
        } else {
            action is Wait
        },
{
}

/// Forgetting the peer saves an invalid address of zeros for peer 0, where a BLE link
/// has a storage for it. Everything that a peripheral itself sends, an LED and an
/// address leave it waiting.
pub proof fn other_messages_are_passed_over<C>(
    features: PeripheralFeatures,
    message: SplitMessage<C>,
    action: PeripheralAction<C>,
    i: int,
)
    requires
        answers(features, message, action),
        0 <= i < 6,
    ensures
        message is ClearPeer ==> if features.ble && features.storage {
            action matches PeripheralAction::<C>::SavePeer(peer) && peer.peer_id == 0
                && !peer.is_valid && peer.address@[i] == 0
        } else {
            action is Wait
        },
        message is Key || message is Pointing || message is Trackpad || message is LedState
            || message is Address || message is BatteryStatus || message is Heartbeat ==> action
            is Wait,
{
}

} // verus!
