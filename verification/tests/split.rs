//! The peripheral half's decisions, and the events on the link.
use rmk::event::input::{
    Axis, AxisEvent, AxisValType, Direction, KeyPos, KeyboardEvent, KeyboardEventPos, PointingEvent, PointingSetCpiEvent,
    RotaryEncoderPos, TrackpadEvent, TrackpadFingers,
};
use rmk::event::state::{
    BatteryStatus, BatteryStatusEvent, ChargeState, ChargingStateEvent, LayerChangeEvent, SleepStateEvent,
    WpmUpdateEvent,
};
use rmk::light::split_link::LightingFrameBytes;
use rmk::split::message::{PeerAddress, SplitDriverError, SplitMessage};
use rmk::split::peripheral::{on_local_event, on_message, on_read_error, LocalEvent, PeripheralAction, PeripheralFeatures};

type Action = PeripheralAction<u8>;

const SERIAL: PeripheralFeatures =
    PeripheralFeatures { ble: false, storage: true, display: true, rgb_lighting: true };
const BLE: PeripheralFeatures = PeripheralFeatures { ble: true, storage: true, display: false, rgb_lighting: true };

#[test]
fn key_events_name_row_and_column() {
    let e = KeyboardEvent::key(2, 5, true);
    assert_eq!(e.pos, KeyboardEventPos::Key(KeyPos { row: 2, col: 5 }));
    assert!(e.pressed);
    assert_eq!(KeyboardEventPos::key_pos(5, 2), e.pos);
    let turn = KeyboardEvent::rotary_encoder(1, Direction::CounterClockwise, false);
    let pos = RotaryEncoderPos { id: 1, direction: Direction::CounterClockwise };
    assert_eq!(turn.pos, KeyboardEventPos::RotaryEncoder(pos));
    assert_eq!(KeyboardEventPos::rotary_encoder_pos(1, Direction::CounterClockwise), turn.pos);
    assert_ne!(PointingSetCpiEvent { device_id: 1, cpi: 400 }, PointingSetCpiEvent { device_id: 1, cpi: 800 });
}

#[test]
fn state_from_the_central_is_published() {
    assert!(matches!(on_message(SERIAL, SplitMessage::ConnectionStatus(9)), Action::UpdateStatus(9)));
    match on_message::<u8>(SERIAL, SplitMessage::KeyboardIndicator(0b110)) {
        PeripheralAction::PublishLedIndicator(e) => {
            assert_eq!((e.0.num_lock(), e.0.caps_lock(), e.0.scroll_lock()), (false, true, true));
            assert_eq!(e.0.into_bits(), 0b110);
        }
        other => panic!("{other:?}"),
    }
    assert!(matches!(
        on_message::<u8>(SERIAL, SplitMessage::Layer(3)),
        Action::PublishLayerChange(LayerChangeEvent(3))
    ));
    assert!(matches!(on_message::<u8>(SERIAL, SplitMessage::Wpm(70)), Action::PublishWpm(WpmUpdateEvent(70))));
    assert!(matches!(
        on_message::<u8>(SERIAL, SplitMessage::SleepState(true)),
        Action::PublishSleepState(SleepStateEvent(true))
    ));
    match on_message::<u8>(SERIAL, SplitMessage::Modifier(0b11)) {
        PeripheralAction::PublishModifier(e) => assert_eq!(e.modifier.into_bits(), 0b11),
        other => panic!("{other:?}"),
    }
}

#[test]
fn messages_for_missing_features_are_passed_over() {
    for message in [SplitMessage::Wpm(1), SplitMessage::Modifier(1), SplitMessage::SleepState(true)] {
        assert!(matches!(on_message::<u8>(BLE, message), Action::Wait));
    }
    assert!(matches!(on_message::<u8>(SERIAL, SplitMessage::ClearPeer), Action::Wait));
    assert!(matches!(on_message::<u8>(SERIAL, SplitMessage::LedState(true)), Action::Wait));
    assert!(matches!(on_message::<u8>(SERIAL, SplitMessage::Address([1; 6])), Action::Wait));
}

#[test]
fn clearing_the_peer_saves_an_invalid_address() {
    match on_message::<u8>(BLE, SplitMessage::ClearPeer) {
        PeripheralAction::SavePeer(peer) => assert_eq!(peer, PeerAddress::new(0, false, [0; 6])),
        other => panic!("{other:?}"),
    }
}

#[test]
fn lighting_frames_need_a_serial_link() {
    let mut frame = LightingFrameBytes::new();
    frame.push(5).unwrap();
    match on_message::<u8>(SERIAL, SplitMessage::LightingFrame(frame.clone())) {
        PeripheralAction::OfferLightingFrame(f) => assert_eq!(f.as_slice(), &[5]),
        other => panic!("{other:?}"),
    }
    assert!(matches!(on_message::<u8>(BLE, SplitMessage::LightingFrame(frame)), Action::Wait));
}

#[test]
fn only_a_lost_link_stops_the_peripheral() {
    assert!(matches!(on_read_error::<u8>(SplitDriverError::Disconnected), Action::Stop));
    for error in [SplitDriverError::SerialError, SplitDriverError::EmptyMessage, SplitDriverError::BleError(1)] {
        assert!(matches!(on_read_error::<u8>(error), Action::Wait));
    }
}

#[test]
fn local_events_are_sent() {
    let key = KeyboardEvent::key(1, 2, true);
    let axis = AxisEvent { typ: AxisValType::Rel, axis: Axis::X, value: -4 };
    let motion = PointingEvent([axis; 3]);
    for features in [SERIAL, BLE] {
        match on_local_event::<u8>(features, LocalEvent::Key(key)) {
            PeripheralAction::Send(SplitMessage::Key(e)) => assert_eq!(e, key),
            other => panic!("{other:?}"),
        }
        match on_local_event::<u8>(features, LocalEvent::Pointing(motion)) {
            PeripheralAction::Send(SplitMessage::Pointing(e)) => assert_eq!(e, motion),
            other => panic!("{other:?}"),
        }
    }
}

#[test]
fn serial_only_and_ble_only_events() {
    let touch = || LocalEvent::Trackpad(TrackpadEvent { fingers: TrackpadFingers::new() });
    let sends = |features, event| matches!(on_local_event::<u8>(features, event), Action::Send(_));
    assert!(sends(SERIAL, touch()) && !sends(BLE, touch()));
    assert!(sends(SERIAL, LocalEvent::HeartbeatDue) && !sends(BLE, LocalEvent::HeartbeatDue));
    let battery = BatteryStatusEvent(BatteryStatus::Unavailable);
    assert!(!sends(SERIAL, LocalEvent::Battery(battery)) && sends(BLE, LocalEvent::Battery(battery)));
    assert!(!sends(SERIAL, LocalEvent::Charging(ChargingStateEvent { charging: true })));
}

#[test]
fn charger_events_become_a_battery_status() {
    for (charging, state) in [(true, ChargeState::Charging), (false, ChargeState::Discharging)] {
        match on_local_event::<u8>(BLE, LocalEvent::Charging(ChargingStateEvent { charging })) {
            PeripheralAction::Send(SplitMessage::BatteryStatus(e)) => {
                assert_eq!(e.0, BatteryStatus::Available { charge_state: state, level: None })
            }
            other => panic!("{other:?}"),
        }
    }
}
