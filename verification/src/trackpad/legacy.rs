//! Legacy-mouse decoder: cursor motion, taps and press-and-hold drags.
use super::params::TrackpadParams;
use super::report;
use super::report::{TrackpadLegacyMouseReport, TrackpadReport, TrackpadReports};
use crate::event::input::{TrackpadEvent, TrackpadFinger};
use crate::math;
use crate::time;
use crate::time::Instant;
use vstd::arithmetic::div_mod;
use vstd::arithmetic::power2;
use vstd::prelude::*;

verus! {

/// What is remembered while at least one finger is down. Read on lift to tell a
/// tap from a drag.
#[derive(Clone, Copy, Debug)]
pub struct TouchSession {
    pub begin: Instant,
    /// Greatest squared deviation of finger 0 from where it started.
    pub max_dev_sq: u32,
    /// Most fingers seen at once: one finger taps button 1, more tap button 2.
    pub max_n: u8,
    /// Button 1 is held down for the rest of the session.
    pub hold_latched: bool,
    /// Position of finger 0 at the start of the session.
    pub start_x: u16,
    pub start_y: u16,
}

/// State of the legacy-mouse decoder.
#[derive(Clone, Copy, Debug)]
pub struct LegacyState {
    /// The touch in progress, if any.
    pub session: Option<TouchSession>,
    /// Position of finger 0 in the last frame that had one.
    pub prev_xy: Option<(u16, u16)>,
    /// Motion of the last frame. It is held back for one frame, so that a lift
    /// can discard the jump that capacitive pads report on release.
    pub pending_motion: Option<(i16, i16)>,
    /// The buttons of the last report.
    pub last_buttons_emitted: u8,
}

/// A decoder that has seen nothing.
pub open spec fn fresh_legacy() -> LegacyState {
    LegacyState {
        session: None,
        prev_xy: None,
        pending_motion: None,
        last_buttons_emitted: 0,
    }
}

/// The finger that moves the cursor.
pub open spec fn is_primary(finger: TrackpadFinger) -> bool {
    finger.id == 0 && finger.tip
}

/// How many contacts are on the surface. Records of lifted fingers do not
/// count.
pub open spec fn live_count(fingers: Seq<TrackpadFinger>) -> nat
    decreases fingers.len(),
{
    if fingers.len() == 0 {
        0
    } else {
        live_count(fingers.drop_last()) + if fingers.last().tip {
            1nat
        } else {
            0
        }
    }
}

/// The first record of a live finger 0, if there is one.
pub open spec fn primary(fingers: Seq<TrackpadFinger>) -> Option<TrackpadFinger>
    decreases fingers.len(),
{
    if fingers.len() == 0 {
        None
    } else {
        match primary(fingers.drop_last()) {
            Some(finger) => Some(finger),
            None => if is_primary(fingers.last()) {
                Some(fingers.last())
            } else {
                None
            },
        }
    }
}

/// Squared distance of `finger` from the start of the session, capped at the
/// greatest `i32`.
pub open spec fn deviation_sq(session: TouchSession, finger: TrackpadFinger) -> int {
    let dx = finger.x - session.start_x;
    let dy = finger.y - session.start_y;
    math::lesser(dx * dx + dy * dy, i32::MAX as int)
}

/// A squared deviation is within the tap budget. A budget of zero, which a panel
/// without extent has, admits none and so turns taps and drags off.
pub open spec fn within_budget(dev_sq: int, params: TrackpadParams) -> bool {
    0 < params.tap_max_dev_chip_sq && dev_sq <= params.tap_max_dev_chip_sq
}

/// A lone finger has stayed within the tap budget for the hold time.
pub open spec fn hold_due(session: TouchSession, params: TrackpadParams, now: Instant) -> bool {
    &&& session.max_n == 1
    &&& within_budget(session.max_dev_sq as int, params)
    &&& time::elapsed(now, session.begin) >= params.hold_time.ticks
}

/// The session after a frame with `n` live fingers, of which `finger` is
/// finger 0.
pub open spec fn touched(
    session: Option<TouchSession>,
    n: nat,
    finger: Option<TrackpadFinger>,
    params: TrackpadParams,
    now: Instant,
) -> TouchSession {
    match (session, finger) {
        (None, None) => TouchSession {
            begin: now,
            max_dev_sq: 0,
            max_n: n as u8,
            hold_latched: false,
            start_x: 0,
            start_y: 0,
        },
        (None, Some(f)) => TouchSession {
            begin: now,
            max_dev_sq: 0,
            max_n: n as u8,
            hold_latched: false,
            start_x: f.x,
            start_y: f.y,
        },
        (Some(s), None) => TouchSession { max_n: math::greater(s.max_n as int, n as int) as u8, ..s },
        (Some(s), Some(f)) => {
            let moved = TouchSession {
                max_n: math::greater(s.max_n as int, n as int) as u8,
                max_dev_sq: math::greater(s.max_dev_sq as int, deviation_sq(s, f)) as u32,
                ..s
            };
            TouchSession { hold_latched: s.hold_latched || hold_due(moved, params, now), ..moved }
        },
    }
}

/// The touch was short and still enough to be a tap, and is no drag.
pub open spec fn is_tap(session: TouchSession, params: TrackpadParams, now: Instant) -> bool {
    &&& !session.hold_latched
    &&& time::elapsed(now, session.begin) <= params.tap_time.ticks
    &&& within_budget(session.max_dev_sq as int, params)
}

/// The button that a tap clicks.
pub open spec fn tap_button(session: TouchSession) -> u8 {
    if session.max_n == 1 {
        0b001
    } else {
        0b010
    }
}

/// A mouse report without motion.
pub open spec fn still_report(buttons: u8) -> TrackpadReport {
    TrackpadReport::LegacyMouse(TrackpadLegacyMouseReport { buttons, x: 0, y: 0 })
}

/// What a lift emits: a press and a release for a tap, a release for a drag.
pub open spec fn lift_reports(
    session: Option<TouchSession>,
    params: TrackpadParams,
    now: Instant,
    routed: u8,
) -> Seq<TrackpadReport> {
    match session {
        None => Seq::empty(),
        Some(s) => if is_tap(s, params, now) {
            seq![still_report(tap_button(s) | routed), still_report(routed)]
        } else if s.hold_latched {
            seq![still_report(routed)]
        } else {
            Seq::empty()
        },
    }
}

/// The button that a latched session holds down.
pub open spec fn held_button(session: Option<TouchSession>) -> u8 {
    match session {
        Some(s) => if s.hold_latched {
            0b001
        } else {
            0
        },
        None => 0,
    }
}

/// `d` chip units as cursor units: `d * num`, divided by two to the `shift` and
/// rounded down, within an `i16`.
pub open spec fn scaled(d: int, num: u16, shift: u8) -> int {
    math::confined(d * num / (power2::pow2(shift as nat) as int), i16::MIN as int, i16::MAX as int)
}

/// Cursor motion from the previous position of finger 0 to its position now.
pub open spec fn motion(
    prev_xy: Option<(u16, u16)>,
    finger: Option<TrackpadFinger>,
    params: TrackpadParams,
) -> Option<(i16, i16)> {
    match (finger, prev_xy) {
        (Some(f), Some(p)) => Some(
            (
                scaled(f.x - p.0, params.scale_num_x, params.scale_shift) as i16,
                scaled(f.y - p.1, params.scale_num_y, params.scale_shift) as i16,
            ),
        ),
        _ => None,
    }
}

/// What a frame with live fingers emits: the motion held back from the frame
/// before, or else a change of buttons.
pub open spec fn touch_reports(state: LegacyState, buttons: u8) -> Seq<TrackpadReport> {
    match state.pending_motion {
        Some(d) => seq![
            TrackpadReport::LegacyMouse(
                TrackpadLegacyMouseReport {
                    buttons,
                    x: math::confined(d.0 as int, i8::MIN as int, i8::MAX as int) as i8,
                    y: math::confined(d.1 as int, i8::MIN as int, i8::MAX as int) as i8,
                },
            ),
        ],
        None => if buttons != state.last_buttons_emitted {
            seq![still_report(buttons)]
        } else {
            Seq::empty()
        },
    }
}

/// The reports that a frame emits.
pub open spec fn frame_reports(
    state: LegacyState,
    fingers: Seq<TrackpadFinger>,
    params: TrackpadParams,
    now: Instant,
    routed: u8,
) -> Seq<TrackpadReport> {
    if live_count(fingers) == 0 {
        lift_reports(state.session, params, now, routed)
    } else {
        let session = touched(
            state.session,
            live_count(fingers),
            primary(fingers),
            params,
            now,
        );
        touch_reports(state, held_button(Some(session)) | routed)
    }
}

/// The state after a frame.
pub open spec fn frame_state(
    state: LegacyState,
    fingers: Seq<TrackpadFinger>,
    params: TrackpadParams,
    now: Instant,
    routed: u8,
) -> LegacyState {
    if live_count(fingers) == 0 {
        LegacyState {
            session: None,
            prev_xy: None,
            pending_motion: None,
            last_buttons_emitted: if lift_reports(state.session, params, now, routed).len() > 0 {
                routed
            } else {
                state.last_buttons_emitted
            },
        }
    } else {
        let session = touched(
            state.session,
            live_count(fingers),
            primary(fingers),
            params,
            now,
        );
        LegacyState {
            session: Some(session),
            prev_xy: match primary(fingers) {
                Some(f) => Some((f.x, f.y)),
                None => state.prev_xy,
            },
            pending_motion: motion(state.prev_xy, primary(fingers), params),
            last_buttons_emitted: held_button(Some(session)) | routed,
        }
    }
}

/// The product of a displacement and a scale numerator fits an `i32`.
pub open spec fn product_fits(d: int, num: u16) -> bool {
    i32::MIN <= d * num <= i32::MAX
}

/// The cursor motion of a frame can be computed: the shift is less than the
/// width of an `i32`, and the products fit one.
pub open spec fn motion_computable(
    prev_xy: Option<(u16, u16)>,
    fingers: Seq<TrackpadFinger>,
    params: TrackpadParams,
) -> bool {
    match (primary(fingers), prev_xy) {
        (Some(f), Some(p)) => {
            &&& params.scale_shift < 32
            &&& product_fits(f.x - p.0, params.scale_num_x)
            &&& product_fits(f.y - p.1, params.scale_num_y)
        },
        _ => true,
    }
}

/// Rounding down twice is rounding down once.
proof fn lemma_halving_rounds_down(v: int, p: int)
    requires
        p > 0,
    ensures
        v / p / 2 == v / (2 * p),
{
    let q = v / p;
    let r = v % p;
    let h = q / 2;
    let rest = p * (q % 2) + r;
    div_mod::lemma_fundamental_div_mod(v, p);
    assert(v == (2 * p) * h + rest && 0 <= rest < 2 * p) by (nonlinear_arith)
        requires
            v == p * q + r,
            0 <= r < p,
            q == 2 * h + q % 2,
            0 <= q % 2 <= 1,
            rest == p * (q % 2) + r,
            p > 0,
    ;
    div_mod::lemma_fundamental_div_mod_converse(v, 2 * p, h, rest);
}

/// Shifting right is dividing by a power of two and rounding down.
proof fn lemma_shr_rounds_down(v: i32, shift: u8)
    requires
        shift < 32,
    ensures
        (v >> shift) == v as int / (power2::pow2(shift as nat) as int),
    decreases shift,
{
    if shift == 0 {
        assert(v >> 0u8 == v) by (bit_vector);
        assert(power2::pow2(0) == 1) by {
            power2::lemma2_to64();
        }
    } else {
        let less = (shift - 1) as u8;
        lemma_shr_rounds_down(v, less);
        assert(v >> shift == (v >> less) >> 1u8) by (bit_vector)
            requires
                0 < shift < 32,
                less == shift - 1,
        ;
        let half = v >> less;
        assert((half >> 1u8) == half as int / 2) by (bit_vector);
        power2::lemma_pow2_unfold(shift as nat);
        power2::lemma_pow2_pos(less as nat);
        lemma_halving_rounds_down(v as int, power2::pow2(less as nat) as int);
    }
}

/// A displacement times a numerator fits an `i64`.
proof fn lemma_product_bound(d: int, num: u16)
    requires
        -65535 <= d <= 65535,
    ensures
        -65535 * 65535 <= d * num <= 65535 * 65535,
{
    assert(-65535 * 65535 <= d * num <= 65535 * 65535) by (nonlinear_arith)
        requires
            -65535 <= d <= 65535,
            0 <= num <= 65535,
    ;
}

/// `d` chip units as cursor units.
pub fn scale(d: i32, num: u16, shift: u8) -> (units: i16)
    requires
        product_fits(d as int, num),
        shift < 32,
    ensures
        units == scaled(d as int, num, shift),
{
    let product: i32 = d * num as i32;
    let v: i32 = product >> shift;
    proof {
        lemma_shr_rounds_down(product, shift);
    }
    if v < i16::MIN as i32 {
        i16::MIN
    } else if v > i16::MAX as i32 {
        i16::MAX
    } else {
        v as i16
    }
}

/// `v` within an `i8`.
pub fn clamp_i8(v: i16) -> (clamped: i8)
    ensures
        clamped == math::confined(v as int, i8::MIN as int, i8::MAX as int),
{
    if v < i8::MIN as i16 {
        i8::MIN
    } else if v > i8::MAX as i16 {
        i8::MAX
    } else {
        v as i8
    }
}

/// How many fingers are live.
fn count_live(fingers: &[TrackpadFinger]) -> (n: u8)
    requires
        fingers@.len() <= 5,
    ensures
        n == live_count(fingers@),
        n <= fingers@.len(),
{
    let mut n: u8 = 0;
    let mut i: usize = 0;
    while i < fingers.len()
        invariant
            i <= fingers@.len() <= 5,
            n <= i,
            n == live_count(fingers@.take(i as int)),
        decreases fingers@.len() - i,
    {
        assert(fingers@.take(i + 1).drop_last() == fingers@.take(i as int));
        if fingers[i].tip {
            n = n + 1;
        }
        i = i + 1;
    }
    assert(fingers@.take(i as int) == fingers@);
    n
}

/// The live record of finger 0.
fn find_primary(fingers: &[TrackpadFinger]) -> (finger: Option<TrackpadFinger>)
    ensures
        finger == primary(fingers@),
{
    let mut found: Option<TrackpadFinger> = None;
    let mut i: usize = 0;
    while i < fingers.len()
        invariant
            i <= fingers@.len(),
            found == primary(fingers@.take(i as int)),
        decreases fingers@.len() - i,
    {
        assert(fingers@.take(i + 1).drop_last() == fingers@.take(i as int));
        if found.is_none() && fingers[i].id == 0 && fingers[i].tip {
            found = Some(fingers[i]);
        }
        i = i + 1;
    }
    assert(fingers@.take(i as int) == fingers@);
    found
}

/// A live finger 0 is a live finger.
proof fn lemma_primary_is_live(fingers: Seq<TrackpadFinger>)
    ensures
        primary(fingers) matches Some(f) ==> is_primary(f) && live_count(fingers) > 0,
    decreases fingers.len(),
{
    if fingers.len() > 0 {
        lemma_primary_is_live(fingers.drop_last());
    }
}

/// Squared distance of `finger` from the start of the session.
fn squared_deviation(session: &TouchSession, finger: &TrackpadFinger) -> (dsq: u32)
    ensures
        dsq == deviation_sq(*session, *finger),
{
    let dx: i64 = finger.x as i64 - session.start_x as i64;
    let dy: i64 = finger.y as i64 - session.start_y as i64;
    assert(0 <= dx * dx <= 65535 * 65535) by (nonlinear_arith)
        requires
            -65535 <= dx <= 65535,
    ;
    assert(0 <= dy * dy <= 65535 * 65535) by (nonlinear_arith)
        requires
            -65535 <= dy <= 65535,
    ;
    let dsq: i64 = dx * dx + dy * dy;
    if dsq > i32::MAX as i64 {
        i32::MAX as u32
    } else {
        dsq as u32
    }
}

/// Whether a squared deviation is within the tap budget; see [`within_budget`].
fn is_within_budget(dev_sq: u32, params: &TrackpadParams) -> (within: bool)
    ensures
        within == within_budget(dev_sq as int, *params),
{
    0 < params.tap_max_dev_chip_sq && dev_sq <= params.tap_max_dev_chip_sq
}

/// The session after a frame; see [`touched`].
fn touch(
    session: Option<TouchSession>,
    n: u8,
    finger: Option<TrackpadFinger>,
    params: &TrackpadParams,
    now: Instant,
) -> (next: TouchSession)
    ensures
        next == touched(session, n as nat, finger, *params, now),
{
    match session {
        Some(mut s) => {
            if n > s.max_n {
                s.max_n = n;
            }
            if let Some(f) = finger {
                let dsq: u32 = squared_deviation(&s, &f);
                if dsq > s.max_dev_sq {
                    s.max_dev_sq = dsq;
                }
                if !s.hold_latched && s.max_n == 1 && is_within_budget(s.max_dev_sq, params)
                    && now.saturating_duration_since(s.begin).ticks >= params.hold_time.ticks {
                    s.hold_latched = true;
                }
            }
            s
        },
        None => {
            let (start_x, start_y): (u16, u16) = match finger {
                Some(f) => (f.x, f.y),
                None => (0, 0),
            };
            TouchSession { begin: now, max_dev_sq: 0, max_n: n, hold_latched: false, start_x, start_y }
        },
    }
}

/// The button that a latched session holds down.
fn latched_button(session: &Option<TouchSession>) -> (button: u8)
    ensures
        button == held_button(*session),
{
    match session {
        Some(s) => if s.hold_latched {
            0b001
        } else {
            0
        },
        None => 0,
    }
}

/// A mouse report without motion.
fn still(buttons: u8) -> (report: TrackpadReport)
    ensures
        report == still_report(buttons),
{
    TrackpadReport::LegacyMouse(TrackpadLegacyMouseReport { buttons, x: 0, y: 0 })
}

impl Default for LegacyState {
    /// A decoder that has seen nothing.
    fn default() -> (state: Self)
        ensures
            state == fresh_legacy(),
    {
        Self { session: None, prev_xy: None, pending_motion: None, last_buttons_emitted: 0 }
    }
}

impl LegacyState {
    /// Whether [`Self::process`] can compute the cursor motion of `event`.
    pub fn can_process(&self, event: &TrackpadEvent, params: &TrackpadParams) -> (ok: bool)
        ensures
            ok == motion_computable(self.prev_xy, event.fingers@, *params),
    {
        match (find_primary(event.fingers.as_slice()), self.prev_xy) {
            (Some(f), Some((px, py))) => {
                proof {
                    lemma_product_bound(f.x - px, params.scale_num_x);
                    lemma_product_bound(f.y - py, params.scale_num_y);
                }
                let x: i64 = (f.x as i64 - px as i64) * params.scale_num_x as i64;
                let y: i64 = (f.y as i64 - py as i64) * params.scale_num_y as i64;
                params.scale_shift < 32 && i32::MIN as i64 <= x && x <= i32::MAX as i64
                    && i32::MIN as i64 <= y && y <= i32::MAX as i64
            },
            _ => true,
        }
    }

    /// Decodes one frame into reports, which are pushed to `out`.
    ///
    /// `routed_buttons` are the buttons that the keymap holds down on this
    /// trackpad; they are merged into every report.
    pub fn process(
        &mut self,
        event: &TrackpadEvent,
        params: &TrackpadParams,
        now: Instant,
        routed_buttons: u8,
        out: &mut TrackpadReports,
    )
        requires
            motion_computable(old(self).prev_xy, event.fingers@, *params),
        ensures
            *final(self) == frame_state(
                *old(self),
                event.fingers@,
                *params,
                now,
                routed_buttons,
            ),
            final(out)@ == report::enqueued(
                old(out)@,
                frame_reports(*old(self), event.fingers@, *params, now, routed_buttons),
            ),
    {
        let fingers = event.fingers.as_slice();
        let n: u8 = count_live(fingers);
        let f0 = find_primary(fingers);
        proof {
            lemma_primary_is_live(fingers@);
        }

        if n == 0 {
            if let Some(s) = self.session {
                let was_tap = !s.hold_latched && now.saturating_duration_since(s.begin).ticks
                    <= params.tap_time.ticks && is_within_budget(s.max_dev_sq, params);
                if was_tap {
                    let button: u8 = if s.max_n == 1 {
                        0b001
                    } else {
                        0b010
                    };
                    self.last_buttons_emitted = routed_buttons;
                    out.push(still(button | routed_buttons));
                    out.push(still(routed_buttons));
                } else if s.hold_latched {
                    self.last_buttons_emitted = routed_buttons;
                    out.push(still(routed_buttons));
                }
            }
            self.session = None;
            self.prev_xy = None;
            self.pending_motion = None;
            return;
        }
        let session = touch(self.session, n, f0, params, now);
        self.session = Some(session);

        let new_motion: Option<(i16, i16)> = match (f0, self.prev_xy) {
            (Some(f), Some((px, py))) => Some(
                (
                    scale(f.x as i32 - px as i32, params.scale_num_x, params.scale_shift),
                    scale(f.y as i32 - py as i32, params.scale_num_y, params.scale_shift),
                ),
            ),
            _ => None,
        };
        if let Some(f) = f0 {
            self.prev_xy = Some((f.x, f.y));
        }
        let buttons: u8 = latched_button(&self.session) | routed_buttons;
        if let Some((dx, dy)) = self.pending_motion {
            out.push(
                TrackpadReport::LegacyMouse(
                    TrackpadLegacyMouseReport { buttons, x: clamp_i8(dx), y: clamp_i8(dy) },
                ),
            );
        } else if buttons != self.last_buttons_emitted {
            out.push(still(buttons));
        }
        self.last_buttons_emitted = buttons;
        self.pending_motion = new_motion;
    }

    /// Surfaces a change of routed buttons between two frames: a report without
    /// motion when the buttons differ from the last ones sent, and nothing
    /// otherwise.
    pub fn process_button_event(&mut self, routed_buttons: u8, out: &mut TrackpadReports)
        ensures
            *final(self) == button_state(*old(self), routed_buttons),
            final(out)@ == report::enqueued(old(out)@, button_reports(*old(self), routed_buttons)),
    {
        let buttons: u8 = latched_button(&self.session) | routed_buttons;
        if buttons == self.last_buttons_emitted {
            return;
        }
        self.last_buttons_emitted = buttons;
        out.push(still(buttons));
    }
}

/// The state after a change of routed buttons.
pub open spec fn button_state(state: LegacyState, routed: u8) -> LegacyState {
    LegacyState { last_buttons_emitted: held_button(state.session) | routed, ..state }
}

/// What a change of routed buttons emits.
pub open spec fn button_reports(state: LegacyState, routed: u8) -> Seq<TrackpadReport> {
    let buttons = held_button(state.session) | routed;
    if buttons == state.last_buttons_emitted {
        Seq::empty()
    } else {
        seq![still_report(buttons)]
    }
}

} // verus!
