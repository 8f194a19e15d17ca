//! Panel parameters, descriptor, wire formats and the mouse decoder.
use rmk::event::input::{TrackpadEvent, TrackpadFinger, TrackpadFingers};
use rmk::time::{Duration, Instant};
use rmk::trackpad::descriptor::{write_trackpad_descriptor, TRACKPAD_DESC_BUF_SIZE};
use rmk::trackpad::legacy::LegacyState;
use rmk::trackpad::params::{TrackpadDimensions, TrackpadParams};
use rmk::trackpad::report::{
    TrackpadLegacyMouseReport, TrackpadPtpFinger, TrackpadPtpReport, TrackpadReport, TrackpadReports,
    PTP_FINGER_BYTES, PTP_REPORT_PAYLOAD_BYTES, TRACKPAD_MAX_CONTACTS,
};

/// Three mouse units per millimetre at 34 chip units per millimetre.
const SCALE: (u16, u16, u8) = (1446, 1446, 14);

#[test]
fn descriptor_fits_in_buffer() {
    let mut buf = [0u8; TRACKPAD_DESC_BUF_SIZE];
    let dims = TrackpadDimensions::from_mm(2048, 3072, 60, 90);
    let len = write_trackpad_descriptor(&mut buf, dims);
    assert!(len <= TRACKPAD_DESC_BUF_SIZE, "{} > {}", len, TRACKPAD_DESC_BUF_SIZE);
}

#[test]
fn descriptor_size_snapshot() {
    // Pin the exact size so any descriptor edit is a deliberate
    // change. Bumping is fine; bump this number too.
    let mut buf = [0u8; 1024];
    let dims = TrackpadDimensions::from_mm(2048, 3072, 60, 90);
    let len = write_trackpad_descriptor(&mut buf, dims);
    assert_eq!(len, 499);
}

#[test]
fn legacy_mouse_serialize() {
    let r = TrackpadLegacyMouseReport {
        buttons: 0b101,
        x: -3,
        y: 7,
    };
    let mut buf = [0u8; 4];
    let n = r.serialize(&mut buf).unwrap();
    assert_eq!(n, 4);
    assert_eq!(buf[0], 0x01);
    assert_eq!(buf[1], 0b101);
    assert_eq!(buf[2] as i8, -3);
    assert_eq!(buf[3], 7);
}

#[test]
fn cu_per_mm_matches_panel() {
    // 2048 chip units across 60 mm = 34 cu/mm; 3072 across 90 mm = 34 cu/mm.
    let d = TrackpadDimensions::from_mm(2048, 3072, 60, 90);
    assert_eq!(d.cu_per_mm_x(), 34);
    assert_eq!(d.cu_per_mm_y(), 34);
    // Different physical mm per axis → different chip-units-per-mm,
    // motivating the per-axis cursor scale.
    let d = TrackpadDimensions::from_mm(2048, 3072, 50, 90);
    assert_eq!(d.cu_per_mm_x(), 40);
    assert_eq!(d.cu_per_mm_y(), 34);
}

#[test]
fn ptp_serialize_layout() {
    let mut r = TrackpadPtpReport {
        scan_time: 0x1234,
        contact_count: 1,
        button: 1,
        ..Default::default()
    };
    r.fingers[0] = TrackpadPtpFinger {
        confidence: true,
        tip_switch: true,
        contact_id: 2,
        x: 0xCAFE,
        y: 0xBEEF,
    };
    let mut buf = [0u8; 1 + PTP_REPORT_PAYLOAD_BYTES];
    let n = r.serialize(&mut buf).unwrap();
    assert_eq!(n, 1 + PTP_REPORT_PAYLOAD_BYTES);
    assert_eq!(buf[0], 0x05);
    assert_eq!(buf[1], 0b11); // flags
    assert_eq!(buf[2], 2); // contact_id
    assert_eq!(&buf[3..5], &[0xFE, 0xCA]);
    assert_eq!(&buf[5..7], &[0xEF, 0xBE]);
    // Tail: scan_time(2) + contact_count(1) + button(1) sit at the end.
    let tail = 1 + (TRACKPAD_MAX_CONTACTS as usize) * PTP_FINGER_BYTES;
    assert_eq!(&buf[tail..tail + 2], &[0x34, 0x12]);
    assert_eq!(buf[tail + 2], 1);
    assert_eq!(buf[tail + 3], 1);
}

#[test]
fn cu_per_mm_zero_dmm() {
    // Misconfigured panel — return 0, don't panic.
    let d = TrackpadDimensions {
        logical_max_x: 2048,
        logical_max_y: 3072,
        physical_dmm_x: 0,
        physical_dmm_y: 0,
    };
    assert_eq!(d.cu_per_mm_x(), 0);
    assert_eq!(d.cu_per_mm_y(), 0);
}

#[test]
fn from_mm_precomputes_tap_sq() {
    // 2 mm × 34 cu/mm = 68 cu → 4624 cu² squared budget.
    let p = TrackpadParams::from_mm(TrackpadDimensions::from_mm(2048, 3072, 60, 90), 2, 150, 450, SCALE);
    assert_eq!(p.tap_max_dev_chip_sq, 68 * 68);
}

// ====================================================================
// Behavioural tests — drive the pure decoders directly.
// ====================================================================


/// Reference panel for the tests: TPS65-501b dims, default tap/hold
/// thresholds. 2 mm of tap-distance budget converts to 68 chip-units
/// at 34 cu/mm, so the squared threshold sits at 4624 cu².
fn default_params() -> TrackpadParams {
    TrackpadParams::from_mm(
        TrackpadDimensions::from_mm(2048, 3072, 60, 90),
        /* tap_max_dev_mm */ 2,
        /* tap_time_ms */ 150,
        /* hold_time_ms */ 450,
        /* scale */ SCALE,
    )
}

fn finger_at(id: u8, x: u16, y: u16) -> TrackpadFinger {
    TrackpadFinger {
        id,
        x,
        y,
        touch_strength: 100,
        area: 0,
        tip: true,
        confidence: true,
    }
}

/// Builds successive [`TrackpadEvent`]s with finger 0's absolute
/// position advancing by each call's `(dx, dy)`. Mirrors what the
/// real chip would report when the finger moves: the processor
/// derives cursor motion from the absolute path (the chip's
/// relative is unreliable at touch onset), so motion tests need
/// realistic absolute coordinates to exercise that code path.
struct Path {
    x: i32,
    y: i32,
}

impl Path {
    /// Arbitrary base far from 0 and from `u16::MAX` so realistic
    /// motion in either direction stays in range.
    fn new() -> Self {
        Self { x: 1000, y: 1000 }
    }

    fn step(&mut self, n: usize, dx: i16, dy: i16) -> TrackpadEvent {
        self.x = self.x.saturating_add(dx as i32);
        self.y = self.y.saturating_add(dy as i32);
        let mut fs = TrackpadFingers::default();
        for i in 0..n {
            let _ = fs.push(finger_at(
                i as u8,
                self.x.clamp(0, u16::MAX as i32) as u16,
                self.y.clamp(0, u16::MAX as i32) as u16,
            ));
        }
        TrackpadEvent { fingers: fs }
    }

    /// Lift `n` fingers — the event the iqs5xx driver actually emits
    /// on the cycle a touch ends: one `tip = false` record per slot
    /// at the contact's last known position (the chip transitions
    /// the slot to 0xFFFF on the *next* cycle, no record). The
    /// processor counts only `tip == true` fingers, so this lands
    /// on the `n == 0` lift branch — using an empty `TrackpadFingers`
    /// here would not exercise the same code path the real chip drives.
    fn lift(&self, n: usize) -> TrackpadEvent {
        let mut fs = TrackpadFingers::default();
        let x = self.x.clamp(0, u16::MAX as i32) as u16;
        let y = self.y.clamp(0, u16::MAX as i32) as u16;
        for i in 0..n {
            let _ = fs.push(TrackpadFinger {
                id: i as u8,
                x,
                y,
                touch_strength: 0,
                area: 0,
                tip: false,
                confidence: true,
            });
        }
        TrackpadEvent { fingers: fs }
    }
}

fn at(t0: Instant, ms: u64) -> Instant {
    Instant::from_ticks(t0.ticks + Duration::from_millis(ms).ticks)
}

fn run(state: &mut LegacyState, ev: &TrackpadEvent, now: Instant) -> Vec<TrackpadReport> {
    let params = default_params();
    let mut out = TrackpadReports::new();
    assert!(state.can_process(ev, &params));
    // No keymap press is in flight in these tests.
    state.process(ev, &params, now, 0, &mut out);
    out.as_slice().to_vec()
}

fn legacy_buttons(r: &TrackpadReport) -> u8 {
    match r {
        TrackpadReport::LegacyMouse(m) => m.buttons,
        _ => panic!("expected legacy mouse report, got {:?}", r),
    }
}
fn legacy_xy(r: &TrackpadReport) -> (i8, i8) {
    match r {
        TrackpadReport::LegacyMouse(m) => (m.x, m.y),
        _ => panic!("expected legacy mouse report, got {:?}", r),
    }
}

#[test]
fn stationary_one_finger_tap_fires_button_1_pulse_on_lift() {
    // Sanity check: the basic shape of the state machine. Touch,
    // hold still briefly, lift — get a press + release pair.
    let mut s = LegacyState::default();
    let t0 = Instant::from_ticks(0);
    let mut path = Path::new();

    assert!(run(&mut s, &path.step(1, 0, 0), at(t0, 0)).is_empty());
    // Lift well within `tap_time_ms` (150) and well under
    // `tap_max_dev_chip_sq` (deviation 0). Tap fires.
    let out = run(&mut s, &path.lift(1), at(t0, 50));
    assert_eq!(out.len(), 2, "tap = press + release ({out:?})");
    assert_eq!(legacy_buttons(&out[0]), 0b001, "press");
    assert_eq!(legacy_buttons(&out[1]), 0, "release");
    assert_eq!(legacy_xy(&out[0]), (0, 0));
}

#[test]
fn two_finger_stationary_tap_fires_button_2_pulse_on_lift() {
    let mut s = LegacyState::default();
    let t0 = Instant::from_ticks(0);
    let mut path = Path::new();

    assert!(run(&mut s, &path.step(2, 0, 0), at(t0, 0)).is_empty());
    let out = run(&mut s, &path.lift(2), at(t0, 50));
    assert_eq!(out.len(), 2);
    assert_eq!(legacy_buttons(&out[0]), 0b010, "two-finger tap = button 2");
    assert_eq!(legacy_buttons(&out[1]), 0);
}

#[test]
fn motion_laden_touch_does_not_fire_tap() {
    // Real-device scenario: the user starts dragging the cursor
    // immediately. The session's deviation passes `tap_max_dev_chip_sq`
    // before the lift, so no tap fires.
    let mut s = LegacyState::default();
    let t0 = Instant::from_ticks(0);
    let mut path = Path::new();

    assert!(run(&mut s, &path.step(1, 0, 0), at(t0, 0)).is_empty());
    // First motion frame: held in pending_motion, not emitted yet.
    // Step puts the finger 50√2 ≈ 70 cu from start — past the
    // 68-cu deviation threshold (2 mm × 34 cu/mm), so this frame
    // already disqualifies the session for tap.
    assert!(run(&mut s, &path.step(1, 50, 50), at(t0, 30)).is_empty());
    // Second motion frame surfaces the first as cursor motion.
    let mid = run(&mut s, &path.step(1, 50, 50), at(t0, 60));
    assert_eq!(mid.len(), 1);
    assert_ne!(legacy_xy(&mid[0]), (0, 0), "previously buffered motion surfaces");
    assert_eq!(legacy_buttons(&mid[0]), 0);

    // Lift: buffered (50, 50) is dropped (one-frame lift suppression),
    // and the deviation past TAP_DIST disqualifies the tap. No press
    // pulse fires.
    let out = run(&mut s, &path.lift(1), at(t0, 90));
    assert!(out.is_empty(), "no tap and no surfaced motion on lift ({out:?})");
}

#[test]
fn software_press_and_hold_latches_button_then_drags_and_releases() {
    let mut s = LegacyState::default();
    let t0 = Instant::from_ticks(0);
    let mut path = Path::new();

    // Touchdown plus continued press well before hold_time elapses.
    // Both frames may surface a (0, 0) report (the prev-frame
    // motion buffer fires whenever there's a finger present), but
    // the buttons must stay 0 throughout.
    let out = run(&mut s, &path.step(1, 0, 0), at(t0, 0));
    for r in &out {
        assert_eq!(legacy_buttons(r), 0, "no buttons before hold_time");
    }
    let out = run(&mut s, &path.step(1, 0, 0), at(t0, 200));
    for r in &out {
        assert_eq!(legacy_buttons(r), 0, "no buttons before hold_time");
    }

    // First frame past hold_time (450 ms): hold latches, button-1
    // goes down. (Motion is zero and any buffered prev-frame motion
    // is also zero, so the report carries no displacement.)
    let out = run(&mut s, &path.step(1, 0, 0), at(t0, 460));
    assert_eq!(out.len(), 1);
    assert_eq!(legacy_buttons(&out[0]), 0b001);
    assert_eq!(legacy_xy(&out[0]), (0, 0));

    // Drag motion under the held button. Use 50-cu steps so the
    // 3/32 cursor scale doesn't truncate to 0. The buffered frame
    // surfaces on the next call.
    let _ = run(&mut s, &path.step(1, 50, 0), at(t0, 475));
    let out = run(&mut s, &path.step(1, 50, 0), at(t0, 488));
    assert!(!out.is_empty());
    assert_eq!(legacy_buttons(&out[0]), 0b001);
    let (dx, _) = legacy_xy(&out[0]);
    assert!(dx > 0, "drag motion surfaces with button held ({dx})");

    // Lift: buffered drag-frame motion is dropped by lift
    // suppression, button 1 releases. Hold-latched sessions are
    // excluded from tap evaluation, so no synthetic press/release
    // fires either.
    let out = run(&mut s, &path.lift(1), at(t0, 501));
    assert_eq!(out.len(), 1);
    assert_eq!(legacy_buttons(&out[0]), 0);
    assert_eq!(legacy_xy(&out[0]), (0, 0));
}

#[test]
fn hold_does_not_latch_with_motion_or_two_fingers() {
    // Deviation past tap_max_dev disqualifies hold for the rest of
    // the session, even after the touch settles down.
    let mut s = LegacyState::default();
    let t0 = Instant::from_ticks(0);
    let mut path = Path::new();
    let _ = run(&mut s, &path.step(1, 0, 0), at(t0, 0));
    // Step puts the finger 50√2 ≈ 70 cu from start, past the 68-cu
    // threshold.
    let _ = run(&mut s, &path.step(1, 50, 50), at(t0, 30));
    let out = run(&mut s, &path.step(1, 0, 0), at(t0, 460));
    for r in &out {
        assert_eq!(legacy_buttons(r), 0, "deviation disqualifies hold ({r:?})");
    }

    // Two-finger sessions never qualify — chord behavior is
    // reserved for two-finger tap (right-click), not drag.
    let mut s = LegacyState::default();
    let mut path = Path::new();
    let _ = run(&mut s, &path.step(2, 0, 0), at(t0, 0));
    let out = run(&mut s, &path.step(2, 0, 0), at(t0, 460));
    for r in &out {
        assert_eq!(legacy_buttons(r), 0, "two-finger touch must not latch hold ({r:?})");
    }
}

#[test]
fn lift_suppresses_prior_frame_centroid_shift_jump() {
    // Capacitive trackpad rolloff: as the finger lifts, the chip's
    // centroid jumps as the contact patch shrinks asymmetrically.
    // The processor must drop the buffered last-frame motion so the
    // cursor doesn't teleport on release.
    let mut s = LegacyState::default();
    let t0 = Instant::from_ticks(0);
    let mut path = Path::new();

    // Touchdown plus normal tracking. The buffer adds one frame of
    // delay, so the first emitted (50, 0) lands at the third
    // process() call rather than the second. 50-cu steps so the
    // 3/32 cursor scale doesn't truncate to 0.
    assert!(run(&mut s, &path.step(1, 0, 0), at(t0, 0)).is_empty());
    let _ = run(&mut s, &path.step(1, 50, 0), at(t0, 13));
    let out = run(&mut s, &path.step(1, 50, 0), at(t0, 26));
    assert_eq!(out.len(), 1);
    let (dx_normal, _) = legacy_xy(&out[0]);
    assert!(dx_normal > 0, "previously-buffered motion surfaces normally");

    // Final frame with finger reports the centroid-shift jump.
    // (500, 0) is the spurious displacement; the previous frame's
    // (50, 0) surfaces here, the (500, 0) is parked in
    // pending_motion awaiting next frame's verdict.
    let out = run(&mut s, &path.step(1, 500, 0), at(t0, 39));
    assert_eq!(out.len(), 1);
    let (dx_pre_lift, _) = legacy_xy(&out[0]);
    assert!(
        (1..30).contains(&dx_pre_lift),
        "modest prior-frame motion, not the jump ({dx_pre_lift})"
    );

    // Lift: buffered (500, 0) is the centroid-shift artifact and
    // must NOT surface as cursor motion.
    let out = run(&mut s, &path.lift(1), at(t0, 52));
    for r in &out {
        assert_eq!(legacy_xy(r), (0, 0), "lift suppresses last-frame motion ({r:?})");
    }

    // After the lift, pending_motion is cleared and prev_xy resets;
    // the next touch starts fresh.
    let mut path = Path::new();
    assert!(run(&mut s, &path.step(1, 0, 0), at(t0, 200)).is_empty());
    let _ = run(&mut s, &path.step(1, 70, 0), at(t0, 213));
    let out = run(&mut s, &path.step(1, 70, 0), at(t0, 226));
    assert_eq!(out.len(), 1);
    let (dx, _) = legacy_xy(&out[0]);
    assert!(dx > 0, "new session emits its own buffered motion");
}

#[test]
fn cursor_motion_derived_from_absolute_position_not_chip_relative() {
    // The processor's only input for motion is the per-finger
    // absolute position: `TrackpadEvent` doesn't carry a chip-side
    // relative dx/dy. This test pins that contract — events with
    // identical relative semantics but different absolute paths
    // produce different cursor deltas.
    let mut s = LegacyState::default();
    let t0 = Instant::from_ticks(0);

    let event_at = |x: u16, y: u16| TrackpadEvent {
        fingers: {
            let mut fs = TrackpadFingers::default();
            let _ = fs.push(finger_at(0, x, y));
            fs
        },
    };

    assert!(run(&mut s, &event_at(1216, 2288), at(t0, 0)).is_empty());
    // Move (-6, -20). Buffered for one cycle.
    assert!(run(&mut s, &event_at(1210, 2268), at(t0, 13)).is_empty());
    // Move (-8, -26). The buffered (-6, -20) surfaces.
    let out = run(&mut s, &event_at(1202, 2242), at(t0, 26));
    assert_eq!(out.len(), 1);
    let (dx, dy) = legacy_xy(&out[0]);
    assert!(dx < 0 && dy < 0, "negative motion surfaces ({dx},{dy})");
}
