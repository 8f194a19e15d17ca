//! The touchpad decoder, modes, requests, routing and the processor.
use rmk::event::input::{MouseButtonsEvent, TrackpadEvent, TrackpadFinger, TrackpadFingers};
use rmk::time::{Duration, Instant, TICK_HZ};
use rmk::trackpad::descriptor::{install_trackpad_descriptor, write_trackpad_descriptor, TrackpadDescriptor};
use rmk::trackpad::legacy::{clamp_i8, scale, LegacyState};
use rmk::trackpad::mode::{
    composite_should_suppress_mouse_buttons, destination_matches, set_mouse_button_destination, slot, MouseButtonRouting,
    TrackpadModes, MAX_TRACKPADS, MODE_LEGACY, MODE_PTP,
};
use rmk::trackpad::params::{TrackpadDimensions, TrackpadParams};
use rmk::trackpad::processor::TrackpadHidProcessor;
use rmk::trackpad::ptp::{scan_time_at, PtpState};
use rmk::trackpad::report::{
    BufferOverflow, TrackpadLegacyMouseReport, TrackpadPtpFinger, TrackpadPtpReport, TrackpadReport, TrackpadReports,
    PTP_REPORT_PAYLOAD_BYTES, TRACKPAD_WRITER_BUF,
};
use rmk::trackpad::request::{OutResponse, ReportId, TrackpadRequestHandler, PTPHQA_BLOB};

fn dims() -> TrackpadDimensions {
    TrackpadDimensions::from_mm(2048, 3072, 60, 90)
}

fn params() -> TrackpadParams {
    TrackpadParams::from_mm(dims(), 2, 150, 450, (1446, 1446, 14))
}

fn finger(id: u8, x: u16, y: u16, tip: bool) -> TrackpadFinger {
    TrackpadFinger { id, x, y, touch_strength: 100, area: 4, tip, confidence: true }
}

fn frame(fingers: &[TrackpadFinger]) -> TrackpadEvent {
    let mut records = TrackpadFingers::new();
    for f in fingers {
        assert!(records.push(*f).is_ok());
    }
    TrackpadEvent { fingers: records }
}

fn ms(millis: u64) -> Instant {
    Instant::from_ticks(Duration::from_millis(millis).ticks)
}

fn ptp(report: &TrackpadReport) -> TrackpadPtpReport {
    match report {
        TrackpadReport::Ptp(r) => *r,
        _ => panic!("expected a touchpad report"),
    }
}

fn mouse(report: &TrackpadReport) -> TrackpadLegacyMouseReport {
    match report {
        TrackpadReport::LegacyMouse(r) => *r,
        _ => panic!("expected a mouse report"),
    }
}

fn decode(state: &mut PtpState, event: &TrackpadEvent, now: Instant, button: u8) -> TrackpadPtpReport {
    let mut out = TrackpadReports::new();
    state.process(event, &params(), now, button, &mut out);
    assert_eq!(out.as_slice().len(), 1, "a frame is one report");
    ptp(&out.as_slice()[0])
}

#[test]
fn durations_and_instants_count_microsecond_ticks() {
    assert_eq!(TICK_HZ, 1_000_000);
    assert_eq!(Duration::from_millis(150).ticks, 150_000);
    assert_eq!(Instant::from_ticks(1234).as_micros(), 1234);
    let early = Instant::from_ticks(10);
    let late = Instant::from_ticks(25);
    assert_eq!(late.saturating_duration_since(early).ticks, 15);
    assert_eq!(early.saturating_duration_since(late).ticks, 0);
}

#[test]
fn scan_time_counts_hundreds_of_microseconds_and_wraps() {
    assert_eq!(scan_time_at(Instant::from_ticks(99)), 0);
    assert_eq!(scan_time_at(Instant::from_ticks(12_300)), 123);
    assert_eq!(scan_time_at(Instant::from_ticks(6_553_500)), 65535);
    assert_eq!(scan_time_at(Instant::from_ticks(6_553_600)), 0);
    assert_eq!(scan_time_at(Instant::from_ticks(6_553_600 + 12_300)), 123);
}

#[test]
fn finger_records_are_bounded() {
    let mut records = TrackpadFingers::new();
    for id in 0..5 {
        assert!(records.push(finger(id, 1, 2, true)).is_ok());
    }
    assert_eq!(records.push(finger(9, 3, 4, true)), Err(finger(9, 3, 4, true)));
    assert_eq!(records.as_slice().len(), 5);
    assert_eq!(records.clone().as_slice(), records.as_slice());
}

#[test]
fn report_queue_drops_what_does_not_fit() {
    let mut out = TrackpadReports::new();
    for buttons in 1..=3 {
        out.push(TrackpadReport::LegacyMouse(TrackpadLegacyMouseReport { buttons, x: 0, y: 0 }));
    }
    let kept: Vec<u8> = out.as_slice().iter().map(|r| mouse(r).buttons).collect();
    assert_eq!(kept, vec![1, 2]);
}

#[test]
fn scaling_rounds_down_and_clamps() {
    assert_eq!(scale(50, 1446, 14), 4);
    assert_eq!(scale(-50, 1446, 14), -5);
    assert_eq!(scale(1, 3, 1), 1);
    assert_eq!(scale(-1, 3, 1), -2);
    assert_eq!(scale(30_000, 65_535, 0), i16::MAX);
    assert_eq!(scale(-30_000, 65_535, 0), i16::MIN);
    assert_eq!(clamp_i8(127), 127);
    assert_eq!(clamp_i8(128), 127);
    assert_eq!(clamp_i8(-128), -128);
    assert_eq!(clamp_i8(-300), -128);
}

#[test]
fn oversized_motion_is_refused() {
    let mut state = LegacyState::default();
    let wide = TrackpadParams { scale_num_x: 65_535, ..params() };
    let mut out = TrackpadReports::new();
    let start = frame(&[finger(0, 0, 0, true)]);
    assert!(state.can_process(&start, &wide));
    state.process(&start, &wide, ms(0), 0, &mut out);
    assert!(!state.can_process(&frame(&[finger(0, 65_535, 0, true)]), &wide));
    assert!(state.can_process(&frame(&[finger(0, 30_000, 0, true)]), &wide));
}

#[test]
fn panel_extents_saturate() {
    let d = TrackpadDimensions::from_mm(2048, 3072, 6554, 90);
    assert_eq!(d.physical_dmm_x, u16::MAX);
    assert_eq!(d.physical_dmm_y, 900);
    let p = params();
    assert_eq!(p.tap_time.ticks, 150_000);
    assert_eq!(p.hold_time.ticks, 450_000);
}

#[test]
fn touchpad_reports_contacts_by_ascending_id_within_the_panel() {
    let mut state = PtpState::default();
    let event = frame(&[finger(3, 5000, 10, true), finger(1, 7, 8, true)]);
    let r = decode(&mut state, &event, ms(20), 0b1010);
    assert_eq!(r.contact_count, 2);
    assert_eq!((r.fingers[0].contact_id, r.fingers[0].x, r.fingers[0].y), (1, 7, 8));
    assert_eq!((r.fingers[1].contact_id, r.fingers[1].x, r.fingers[1].y), (3, 2048, 10));
    assert_eq!(r.fingers[2], TrackpadPtpFinger::default());
    assert_eq!(r.scan_time, 200);
    assert_eq!(r.button, 0b010);
}

#[test]
fn later_record_of_a_contact_wins_and_foreign_ids_are_ignored() {
    let mut state = PtpState::default();
    let event = frame(&[finger(0, 1, 1, true), finger(0, 2, 3, true), finger(5, 9, 9, true)]);
    let r = decode(&mut state, &event, ms(0), 0);
    assert_eq!(r.contact_count, 1);
    assert_eq!((r.fingers[0].x, r.fingers[0].y), (2, 3));
}

#[test]
fn dropped_contact_gets_one_lift() {
    let mut state = PtpState::default();
    decode(&mut state, &frame(&[finger(2, 40, 50, true)]), ms(0), 0);
    let lift = decode(&mut state, &frame(&[]), ms(10), 0);
    assert_eq!(lift.contact_count, 1);
    assert_eq!(
        lift.fingers[0],
        TrackpadPtpFinger { confidence: true, tip_switch: false, contact_id: 2, x: 40, y: 50 }
    );
    assert_eq!(decode(&mut state, &frame(&[]), ms(20), 0).contact_count, 0);
}

#[test]
fn reported_lift_is_not_repeated() {
    let mut state = PtpState::default();
    decode(&mut state, &frame(&[finger(0, 1, 1, true)]), ms(0), 0);
    let lift = decode(&mut state, &frame(&[finger(0, 1, 1, false)]), ms(10), 0);
    assert_eq!((lift.contact_count, lift.fingers[0].tip_switch), (1, false));
    assert_eq!(decode(&mut state, &frame(&[]), ms(20), 0).contact_count, 0);
}

#[test]
fn touchpad_button_event_replays_live_contacts_once() {
    let mut state = PtpState::default();
    decode(&mut state, &frame(&[finger(1, 30, 40, true)]), ms(0), 0);
    let mut out = TrackpadReports::new();
    state.process_button_event(&params(), ms(5), 0b1001, &mut out);
    let r = ptp(&out.as_slice()[0]);
    assert_eq!((r.contact_count, r.button, r.scan_time), (1, 0b001, 50));
    assert_eq!(
        r.fingers[0],
        TrackpadPtpFinger { confidence: true, tip_switch: true, contact_id: 1, x: 30, y: 40 }
    );
    let mut again = TrackpadReports::new();
    state.process_button_event(&params(), ms(6), 0b001, &mut again);
    assert!(again.as_slice().is_empty());
}

#[test]
fn touchpad_button_event_lists_live_contacts_in_order() {
    let mut s = PtpState::default();
    decode(&mut s, &frame(&[finger(3, 4000, 30, true), finger(1, 10, 20, true)]), ms(1), 0);
    decode(&mut s, &frame(&[finger(1, 11, 21, true), finger(3, 4000, 31, true), finger(4, 5, 6, false)]), ms(2), 0);
    let mut out = TrackpadReports::new();
    s.process_button_event(&params(), ms(3), 1, &mut out);
    let r = ptp(&out.as_slice()[0]);
    assert_eq!((r.contact_count, r.button), (2, 1));
    let records: Vec<(u8, u16, u16, bool)> =
        r.fingers[..2].iter().map(|f| (f.contact_id, f.x, f.y, f.tip_switch)).collect();
    assert_eq!(records, vec![(1, 11, 21, true), (3, 2048, 31, true)]);
}

#[test]
fn mouse_button_event_is_reported_once() {
    let mut state = LegacyState::default();
    let mut out = TrackpadReports::new();
    state.process_button_event(0b010, &mut out);
    state.process_button_event(0b010, &mut out);
    assert_eq!(out.as_slice().len(), 1);
    assert_eq!(mouse(&out.as_slice()[0]), TrackpadLegacyMouseReport { buttons: 0b010, x: 0, y: 0 });
}

#[test]
fn serialization_needs_room() {
    let m = TrackpadReport::LegacyMouse(TrackpadLegacyMouseReport { buttons: 0xFF, x: -128, y: 127 });
    let mut small = [9u8; 3];
    assert_eq!(m.serialize(&mut small), Err(BufferOverflow));
    assert_eq!(small, [9; 3]);
    let mut buf = [9u8; 6];
    assert_eq!(m.serialize(&mut buf), Ok(4));
    assert_eq!(buf, [0x01, 0b111, 0x80, 0x7F, 9, 9]);

    let p = TrackpadReport::Ptp(TrackpadPtpReport { button: 0xFF, ..TrackpadPtpReport::default() });
    let mut small = [9u8; TRACKPAD_WRITER_BUF - 1];
    assert_eq!(p.serialize(&mut small), Err(BufferOverflow));
    let mut buf = [9u8; TRACKPAD_WRITER_BUF];
    assert_eq!(p.serialize(&mut buf), Ok(1 + PTP_REPORT_PAYLOAD_BYTES));
    assert_eq!(buf[34], 0b111);
}

#[test]
fn contact_ids_are_masked_on_the_wire() {
    let mut r = TrackpadPtpReport::default();
    r.fingers[4] = TrackpadPtpFinger { confidence: false, tip_switch: true, contact_id: 0xFF, x: 1, y: 0x0203 };
    let mut buf = [0u8; TRACKPAD_WRITER_BUF];
    r.serialize(&mut buf).unwrap();
    assert_eq!(&buf[25..31], &[0b10, 0x7F, 1, 0, 3, 2]);
}

/// Bits of each input report and each feature report, by report id, and the
/// collection depth at the end.
fn report_bits(descriptor: &[u8]) -> (Vec<(u8, u32)>, Vec<(u8, u32)>, i32) {
    let (mut inputs, mut features): (Vec<(u8, u32)>, Vec<(u8, u32)>) = (Vec::new(), Vec::new());
    let (mut size, mut count, mut id, mut depth) = (0u32, 0u32, 0u8, 0i32);
    let mut i = 0;
    while i < descriptor.len() {
        let tag = descriptor[i];
        let len = match tag & 3 {
            3 => 4,
            n => n as usize,
        };
        let mut value = 0u32;
        for k in 0..len {
            value |= (descriptor[i + 1 + k] as u32) << (8 * k);
        }
        let mut add = |list: &mut Vec<(u8, u32)>| match list.iter_mut().find(|e| e.0 == id) {
            Some(e) => e.1 += size * count,
            None => list.push((id, size * count)),
        };
        match tag & 0xFC {
            0x74 => size = value,
            0x94 => count = value,
            0x84 => id = value as u8,
            0x80 => add(&mut inputs),
            0xB0 => add(&mut features),
            0xA0 => depth += 1,
            0xC0 => depth -= 1,
            _ => {}
        }
        i += 1 + len;
    }
    assert_eq!(i, descriptor.len());
    (inputs, features, depth)
}

#[test]
fn descriptor_declares_the_reports_that_are_sent() {
    let mut buf = [0u8; 512];
    let len = write_trackpad_descriptor(&mut buf, dims());
    let (inputs, features, depth) = report_bits(&buf[..len]);
    assert_eq!(depth, 0);
    assert_eq!(inputs, vec![(0x01, 24), (0x05, 8 * PTP_REPORT_PAYLOAD_BYTES as u32)]);
    assert_eq!(features, vec![(0x07, 8), (0x06, 8), (0x0F, 2048), (0x08, 8), (0x09, 8)]);
    assert_eq!(&buf[92..95], &[0x26, 0x00, 0x08]);
    assert_eq!(&buf[105..108], &[0x46, 0x58, 0x02]);
    assert_eq!(buf[499], 0);
}

#[test]
fn descriptor_differs_in_the_dimensions_only() {
    let (mut one, mut other) = ([0u8; 512], [0u8; 512]);
    write_trackpad_descriptor(&mut one, dims());
    write_trackpad_descriptor(&mut other, TrackpadDimensions::from_mm(0x1234, 0x5678, 100, 200));
    assert_eq!(&one[2..6], &[0x09, 0x02, 0xA1, 0x01]);
    assert_eq!(&one[52..56], &[0x09, 0x05, 0xA1, 0x01]);
    assert_eq!(&one[450..454], &[0x09, 0x0E, 0xA1, 0x01]);
    assert_eq!(&other[93..95], &[0x34, 0x12]);
    assert_eq!(&other[106..108], &1000u16.to_le_bytes());
    assert_eq!(&other[113..115], &2000u16.to_le_bytes());
    assert_eq!(&other[116..118], &[0x78, 0x56]);
    let mut places = vec![93, 106, 113, 116];
    for k in 0..4 {
        assert_eq!(&other[162 + 55 * k..164 + 55 * k], &[0x34, 0x12]);
        assert_eq!(&other[171 + 55 * k..173 + 55 * k], &[0x78, 0x56]);
        places.extend([162 + 55 * k, 171 + 55 * k]);
    }
    for i in 0..512 {
        let dimension = places.iter().any(|p| *p <= i && i < *p + 2);
        assert!(dimension || one[i] == other[i], "byte {i}");
    }
}

#[test]
fn installed_descriptor_is_served() {
    let mut slot: Option<TrackpadDescriptor> = None;
    let same = install_trackpad_descriptor(&mut slot, params());
    assert_eq!(same.dims, dims());
    let mut buf = [0u8; 512];
    let len = write_trackpad_descriptor(&mut buf, dims());
    assert_eq!(TrackpadDescriptor::desc(&slot), &buf[..len]);
}

#[test]
fn input_mode_reads_back() {
    let mut modes = TrackpadModes::new();
    let mut handler = TrackpadRequestHandler::new(0);
    let mut buf = [0u8; 2];
    for (value, mode) in [(3u8, MODE_PTP), (1, MODE_LEGACY), (3, MODE_PTP), (0, MODE_LEGACY)] {
        assert_eq!(handler.set_report(ReportId::Feature(0x08), &[0x08, value], &mut modes), OutResponse::Accepted);
        assert_eq!(handler.get_report(ReportId::Feature(0x08), &mut buf, &modes), Some(2));
        assert_eq!(buf, [0x08, mode]);
    }
}

#[test]
fn short_input_mode_write_changes_nothing() {
    let mut modes = TrackpadModes::new();
    modes.store(1, MODE_PTP);
    let mut handler = TrackpadRequestHandler::new(1);
    assert_eq!(handler.set_report(ReportId::Feature(0x08), &[0x08], &mut modes), OutResponse::Accepted);
    assert_eq!(modes.load(1), MODE_PTP);
}

#[test]
fn modes_are_independent_and_high_ids_share_the_last_slot() {
    let mut modes = TrackpadModes::new();
    let mut handler = TrackpadRequestHandler::new(2);
    handler.set_report(ReportId::Feature(0x08), &[0x08, 3], &mut modes);
    assert_eq!(modes.slots, [MODE_LEGACY, MODE_LEGACY, MODE_PTP, MODE_LEGACY]);
    let mut beyond = TrackpadRequestHandler::new(200);
    beyond.set_report(ReportId::Feature(0x08), &[0x08, 3], &mut modes);
    assert_eq!(modes.load(MAX_TRACKPADS as u8 - 1), MODE_PTP);
}

#[test]
fn slots_of_high_ids() {
    assert_eq!([0u8, 3, 4, 255].map(slot), [0, 3, 3, 3]);
}

#[test]
fn unknown_writes_are_rejected_and_change_nothing() {
    let mut modes = TrackpadModes::new();
    let mut handler = TrackpadRequestHandler::new(0);
    for id in [ReportId::Feature(0x10), ReportId::Feature(0x07), ReportId::Out(0x08), ReportId::In(0x08)] {
        assert_eq!(handler.set_report(id, &[0x08, 3], &mut modes), OutResponse::Rejected);
    }
    for id in [ReportId::Feature(0x06), ReportId::Feature(0x09)] {
        assert_eq!(handler.set_report(id, &[0, 3], &mut modes), OutResponse::Accepted);
    }
    assert_eq!(modes.slots, [MODE_LEGACY; 4]);
}

#[test]
fn feature_reads() {
    let modes = TrackpadModes::new();
    let handler = TrackpadRequestHandler::new(0);
    let mut buf = [7u8; 4];
    assert_eq!(handler.get_report(ReportId::Feature(0x07), &mut buf, &modes), Some(2));
    assert_eq!(buf, [0x07, 0x25, 7, 7]);
    assert_eq!(handler.get_report(ReportId::Feature(0x09), &mut buf, &modes), Some(2));
    assert_eq!(buf[..2], [0x09, 0b11]);
    assert_eq!(handler.get_report(ReportId::Feature(0x06), &mut buf, &modes), Some(2));
    assert_eq!(buf[..2], [0x06, 0]);
    let mut tiny = [7u8; 1];
    assert_eq!(handler.get_report(ReportId::Feature(0x06), &mut tiny, &modes), None);
    assert_eq!(handler.get_report(ReportId::Feature(0x55), &mut buf, &modes), None);
    assert_eq!(handler.get_report(ReportId::In(0x06), &mut buf, &modes), None);
    assert_eq!(tiny, [7]);
}

#[test]
fn certification_blob_is_served_whole() {
    let modes = TrackpadModes::new();
    let handler = TrackpadRequestHandler::new(0);
    let mut buf = [0u8; 300];
    assert_eq!(handler.get_report(ReportId::Feature(0x0F), &mut buf[..256], &modes), None);
    assert_eq!(handler.get_report(ReportId::Feature(0x0F), &mut buf, &modes), Some(257));
    assert_eq!(buf[0], 0x0F);
    assert_eq!(&buf[1..257], &PTPHQA_BLOB[..]);
    assert_eq!((buf[1], buf[256], buf[257]), (0xfc, 0xc2, 0));
}

#[test]
fn buttons_have_one_destination() {
    let mut routing = MouseButtonRouting::default();
    assert!(!composite_should_suppress_mouse_buttons(&routing));
    set_mouse_button_destination(&mut routing, Some(2));
    assert!(composite_should_suppress_mouse_buttons(&routing));
    let hit: Vec<u8> = (0..=255).filter(|id| destination_matches(&routing, *id)).collect();
    assert_eq!(hit, vec![2]);
    set_mouse_button_destination(&mut routing, Some(4));
    assert!(!composite_should_suppress_mouse_buttons(&routing));
    assert_eq!(routing, MouseButtonRouting::default());
}

#[test]
fn processor_starts_the_other_decoder_afresh() {
    let mut modes = TrackpadModes::new();
    let routing = MouseButtonRouting::default();
    let mut p = TrackpadHidProcessor::new(0, params());
    let touch = frame(&[finger(0, 1000, 1000, true)]);

    assert!(p.can_process(&touch, &modes));
    assert!(p.on_trackpad_event(&touch, ms(0), &modes, &routing, 0).as_slice().is_empty());
    modes.store(0, MODE_PTP);
    let out = p.on_trackpad_event(&touch, ms(10), &modes, &routing, 0);
    assert_eq!(ptp(&out.as_slice()[0]).contact_count, 1);
    // Back in legacy mode the lift belongs to no touch, so nothing clicks.
    modes.store(0, MODE_LEGACY);
    let lift = frame(&[finger(0, 1000, 1000, false)]);
    assert!(p.on_trackpad_event(&lift, ms(20), &modes, &routing, 0).as_slice().is_empty());
    // And the touchpad has forgotten its contact.
    modes.store(0, MODE_PTP);
    let out = p.on_trackpad_event(&frame(&[]), ms(30), &modes, &routing, 0);
    assert_eq!(ptp(&out.as_slice()[0]).contact_count, 0);
}

#[test]
fn routed_buttons_reach_only_the_destination() {
    let modes = TrackpadModes::new();
    let mut routing = MouseButtonRouting::default();
    set_mouse_button_destination(&mut routing, Some(1));
    let mut here = TrackpadHidProcessor::new(1, params());
    let mut there = TrackpadHidProcessor::new(0, params());
    assert_eq!(here.routed_buttons(&routing, 0xFF, 0b111), 0b111);
    assert_eq!(there.routed_buttons(&routing, 0xFF, 0b111), 0);
    let event = MouseButtonsEvent { buttons: 0b1001 };
    let out = here.on_mouse_buttons_event(event, ms(0), &modes, &routing, 0b1001);
    assert_eq!(mouse(&out.as_slice()[0]).buttons, 0b001);
    assert!(there.on_mouse_buttons_event(event, ms(0), &modes, &routing, 0b1001).as_slice().is_empty());
    // The press is also in the next frame's report state: nothing new to say.
    let out = here.on_trackpad_event(&frame(&[finger(0, 5, 5, true)]), ms(5), &modes, &routing, 0b1001);
    assert!(out.as_slice().is_empty());
}

#[test]
fn touchpad_click_without_finger() {
    let mut modes = TrackpadModes::new();
    modes.store(0, MODE_PTP);
    let mut routing = MouseButtonRouting::default();
    set_mouse_button_destination(&mut routing, Some(0));
    let mut p = TrackpadHidProcessor::new(0, params());
    let out = p.on_mouse_buttons_event(MouseButtonsEvent { buttons: 1 }, ms(0), &modes, &routing, 1);
    assert_eq!((ptp(&out.as_slice()[0]).button, ptp(&out.as_slice()[0]).contact_count), (1, 0));
    let out = p.on_mouse_buttons_event(MouseButtonsEvent { buttons: 0 }, ms(1), &modes, &routing, 0);
    assert_eq!(ptp(&out.as_slice()[0]).button, 0);
}

#[test]
fn tap_lasts_no_longer_than_the_tap_time() {
    for (lift_at, reports) in [(150u64, 2usize), (151, 0)] {
        let mut s = LegacyState::default();
        let mut out = TrackpadReports::new();
        s.process(&frame(&[finger(0, 9, 9, true)]), &params(), ms(0), 0, &mut out);
        s.process(&frame(&[finger(0, 9, 9, false)]), &params(), ms(lift_at), 0, &mut out);
        assert_eq!(out.as_slice().len(), reports);
    }
}

#[test]
fn panel_without_extent_has_no_taps() {
    let p = TrackpadParams::from_mm(TrackpadDimensions::from_mm(2048, 3072, 0, 0), 2, 150, 450, (0, 0, 0));
    assert_eq!(p.tap_max_dev_chip_sq, 0);
    let still = [finger(0, 100, 100, true)];
    let mut s = LegacyState::default();
    let mut out = TrackpadReports::new();
    s.process(&frame(&still), &p, ms(0), 0, &mut out);
    s.process(&frame(&[finger(0, 100, 100, false)]), &p, ms(50), 0, &mut out);
    assert!(out.as_slice().is_empty(), "no click");
    let mut s = LegacyState::default();
    s.process(&frame(&still), &p, ms(0), 0, &mut out);
    s.process(&frame(&still), &p, ms(460), 0, &mut out);
    assert!(!s.session.unwrap().hold_latched, "no drag");
    assert!(out.as_slice().is_empty());
}

#[test]
fn least_budget_allows_a_still_touch() {
    let p = TrackpadParams { tap_max_dev_chip_sq: 1, ..params() };
    let mut s = LegacyState::default();
    let mut out = TrackpadReports::new();
    s.process(&frame(&[finger(0, 100, 100, true)]), &p, ms(0), 0, &mut out);
    s.process(&frame(&[finger(0, 101, 100, true)]), &p, ms(460), 0, &mut out);
    assert!(s.session.unwrap().hold_latched);
    let mut s = LegacyState::default();
    s.process(&frame(&[finger(0, 100, 100, true)]), &p, ms(0), 0, &mut out);
    s.process(&frame(&[finger(0, 101, 101, true)]), &p, ms(460), 0, &mut out);
    assert!(!s.session.unwrap().hold_latched);
}

#[test]
fn great_budget_is_never_exceeded() {
    let great = i32::MAX as u32;
    for (budget, reports) in [(great - 1, 0usize), (great, 2), (u32::MAX, 2)] {
        let p = TrackpadParams { tap_max_dev_chip_sq: budget, scale_num_x: 0, scale_num_y: 0, ..params() };
        let mut s = LegacyState::default();
        let mut out = TrackpadReports::new();
        s.process(&frame(&[finger(0, 0, 0, true)]), &p, ms(0), 0, &mut out);
        s.process(&frame(&[finger(0, 65_535, 65_535, true)]), &p, ms(10), 0, &mut out);
        let mut out = TrackpadReports::new();
        s.process(&frame(&[]), &p, ms(20), 0, &mut out);
        assert_eq!(out.as_slice().len(), reports);
        let mut s = LegacyState::default();
        s.process(&frame(&[finger(0, 0, 0, true)]), &p, ms(0), 0, &mut out);
        s.process(&frame(&[finger(0, 65_535, 65_535, true)]), &p, ms(460), 0, &mut out);
        assert_eq!(s.session.unwrap().hold_latched, reports == 2);
    }
}

#[test]
fn drag_holds_button_1_until_the_lift() {
    let mut s = LegacyState::default();
    let mut buttons = Vec::new();
    for at in [0u64, 449, 450, 600] {
        let mut out = TrackpadReports::new();
        s.process(&frame(&[finger(0, 100, 100, true)]), &params(), ms(at), 0, &mut out);
        buttons.push(out.as_slice().iter().map(|r| mouse(r).buttons).collect::<Vec<u8>>());
    }
    assert!(buttons[0].is_empty() && buttons[1].iter().all(|b| *b == 0));
    assert!(buttons[2].iter().chain(&buttons[3]).all(|b| *b == 1));
    let mut out = TrackpadReports::new();
    s.process(&frame(&[]), &params(), ms(610), 0, &mut out);
    let lift: Vec<u8> = out.as_slice().iter().map(|r| mouse(r).buttons).collect();
    assert_eq!(lift, vec![0]);
}

#[test]
fn routed_button_travels_with_a_tap() {
    let mut s = LegacyState::default();
    let mut out = TrackpadReports::new();
    s.process(&frame(&[finger(0, 9, 9, true)]), &params(), ms(0), 0b100, &mut out);
    assert_eq!(mouse(&out.as_slice()[0]).buttons, 0b100);
    let mut out = TrackpadReports::new();
    s.process(&frame(&[]), &params(), ms(50), 0b100, &mut out);
    let buttons: Vec<u8> = out.as_slice().iter().map(|r| mouse(r).buttons).collect();
    assert_eq!(buttons, vec![0b101, 0b100]);
}

#[test]
fn far_deviation_is_capped() {
    let mut s = LegacyState::default();
    let mut out = TrackpadReports::new();
    let flat = TrackpadParams { scale_num_x: 0, scale_num_y: 0, ..params() };
    s.process(&frame(&[finger(0, 0, 0, true)]), &flat, ms(0), 0, &mut out);
    s.process(&frame(&[finger(0, 65_535, 65_535, true)]), &flat, ms(1), 0, &mut out);
    assert_eq!(s.session.unwrap().max_dev_sq, i32::MAX as u32);
}

#[test]
fn touch_remembers_its_frames() {
    let mut s = LegacyState::default();
    let mut out = TrackpadReports::new();
    let still = TrackpadParams { scale_num_x: 0, scale_num_y: 0, ..params() };
    let frames: [(u64, &[TrackpadFinger]); 3] = [
        (5, &[finger(0, 100, 100, true)]),
        (10, &[finger(0, 103, 104, true), finger(1, 9, 9, true)]),
        (15, &[finger(0, 101, 100, true)]),
    ];
    for (at, fingers) in frames {
        s.process(&frame(fingers), &still, ms(at), 0, &mut out);
    }
    let session = s.session.unwrap();
    assert_eq!((session.begin, session.max_n, session.max_dev_sq), (ms(5), 2, 25));
    assert_eq!((session.start_x, session.start_y), (100, 100));
}

#[test]
fn empty_values() {
    assert!(TrackpadEvent::default().clone().fingers.as_slice().is_empty());
    assert_eq!(TrackpadFinger::default(), TrackpadFinger { touch_strength: 0, area: 0, confidence: false, ..finger(0, 0, 0, false) });
    assert_eq!(TrackpadLegacyMouseReport::default(), TrackpadLegacyMouseReport { buttons: 0, x: 0, y: 0 });
    assert_eq!(TrackpadModes::default().slots, [MODE_LEGACY; 4]);
}
