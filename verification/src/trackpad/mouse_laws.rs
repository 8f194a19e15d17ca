//! What the mouse decoder makes of the fingers: which of them count, how the
//! cursor follows, and which buttons are reported.
use super::laws;
use super::laws::Frame;
use super::legacy;
use super::legacy::{LegacyState, TouchSession};
use super::params::TrackpadParams;
use super::report::{TrackpadLegacyMouseReport, TrackpadReport};
use crate::event::input::TrackpadFinger;
use vstd::arithmetic::power2;
use vstd::prelude::*;

verus! {

/// `finger` leads the cursor in a frame: it is the first record of a finger with
/// id zero that is on the surface.
pub open spec fn leads(fingers: Seq<TrackpadFinger>, finger: TrackpadFinger) -> bool {
    exists|i: int|
        {
            &&& 0 <= i < fingers.len()
            &&& #[trigger] fingers[i] == finger
            &&& finger.id == 0 && finger.tip
            &&& forall|j: int| 0 <= j < i ==> !((#[trigger] fingers[j]).id == 0 && fingers[j].tip)
        }
}

/// No finger with id zero is on the surface.
pub open spec fn leaderless(fingers: Seq<TrackpadFinger>) -> bool {
    forall|j: int| 0 <= j < fingers.len() ==> !((#[trigger] fingers[j]).id == 0 && fingers[j].tip)
}

/// Some finger is on the surface.
pub open spec fn touching(fingers: Seq<TrackpadFinger>) -> bool {
    exists|j: int| 0 <= j < fingers.len() && (#[trigger] fingers[j]).tip
}

/// The state of the decoder after `frame`.
pub open spec fn after(state: LegacyState, frame: Frame, params: TrackpadParams) -> LegacyState {
    legacy::frame_state(state, frame.fingers, params, frame.now, frame.routed)
}

/// The reports of `frame`.
pub open spec fn reports(
    state: LegacyState,
    frame: Frame,
    params: TrackpadParams,
) -> Seq<TrackpadReport> {
    legacy::frame_reports(state, frame.fingers, params, frame.now, frame.routed)
}

/// A finger counts as down exactly if its record says that it is on the surface.
pub proof fn live_fingers_are_on_the_surface(fingers: Seq<TrackpadFinger>)
    ensures
        legacy::live_count(fingers) == fingers.filter(|f: TrackpadFinger| f.tip).len(),
        legacy::live_count(fingers) > 0 <==> touching(fingers),
    decreases fingers.len(),
{
    reveal(Seq::filter);
    if fingers.len() > 0 {
        let before = fingers.drop_last();
        live_fingers_are_on_the_surface(before);
        if touching(before) {
            let j = choose|j: int| 0 <= j < before.len() && (#[trigger] before[j]).tip;
            assert(fingers[j].tip);
        }
        if touching(fingers) {
            let j = choose|j: int| 0 <= j < fingers.len() && (#[trigger] fingers[j]).tip;
            if j < before.len() {
                assert(before[j].tip);
            }
        }
        assert(fingers.last() == fingers[fingers.len() - 1]);
    }
}

/// The cursor is led by the first record of a live finger zero, and by none in a
/// frame without one.
pub proof fn first_live_finger_zero_leads(fingers: Seq<TrackpadFinger>)
    ensures
        legacy::primary(fingers) matches Some(f) ==> leads(fingers, f),
        legacy::primary(fingers) is None ==> leaderless(fingers),
    decreases fingers.len(),
{
    if fingers.len() > 0 {
        let before = fingers.drop_last();
        first_live_finger_zero_leads(before);
        if let Some(f) = legacy::primary(before) {
            let i = choose|i: int|
                {
                    &&& 0 <= i < before.len()
                    &&& #[trigger] before[i] == f
                    &&& f.id == 0 && f.tip
                    &&& forall|j: int|
                        0 <= j < i ==> !((#[trigger] before[j]).id == 0 && before[j].tip)
                };
            assert(fingers[i] == f);
            assert forall|j: int| 0 <= j < i implies !((#[trigger] fingers[j]).id == 0
                && fingers[j].tip) by {
                assert(before[j] == fingers[j]);
            }
            assert(leads(fingers, f));
        } else {
            let last = fingers.len() - 1;
            assert forall|j: int| 0 <= j < last implies !((#[trigger] fingers[j]).id == 0
                && fingers[j].tip) by {
                assert(before[j] == fingers[j]);
            }
            assert(fingers[last] == fingers.last());
            if fingers.last().id == 0 && fingers.last().tip {
                assert(leads(fingers, fingers.last()));
            }
        }
    }
}

/// The same from the records: a leader leads, and a frame has one at most.
proof fn lemma_leader(fingers: Seq<TrackpadFinger>, finger: TrackpadFinger)
    requires
        leads(fingers, finger),
    ensures
        legacy::primary(fingers) == Some(finger),
        legacy::live_count(fingers) > 0,
{
    first_live_finger_zero_leads(fingers);
    live_fingers_are_on_the_surface(fingers);
    let i = choose|i: int|
        {
            &&& 0 <= i < fingers.len()
            &&& #[trigger] fingers[i] == finger
            &&& finger.id == 0 && finger.tip
            &&& forall|j: int| 0 <= j < i ==> !((#[trigger] fingers[j]).id == 0 && fingers[j].tip)
        };
    assert(fingers[i].tip);
    if let Some(f) = legacy::primary(fingers) {
        let k = choose|k: int|
            {
                &&& 0 <= k < fingers.len()
                &&& #[trigger] fingers[k] == f
                &&& f.id == 0 && f.tip
                &&& forall|j: int|
                    0 <= j < k ==> !((#[trigger] fingers[j]).id == 0 && fingers[j].tip)
            };
        assert(i == k);
    }
}

/// A frame without a leader has none.
proof fn lemma_leaderless(fingers: Seq<TrackpadFinger>)
    requires
        leaderless(fingers),
    ensures
        legacy::primary(fingers) is None,
{
    first_live_finger_zero_leads(fingers);
}

/// After every frame with a leading finger its position is remembered, whatever
/// was remembered before.
pub proof fn position_is_remembered(
    state: LegacyState,
    frame: Frame,
    finger: TrackpadFinger,
    params: TrackpadParams,
)
    requires
        leads(frame.fingers, finger),
    ensures
        after(state, frame, params).prev_xy == Some((finger.x, finger.y)),
{
    lemma_leader(frame.fingers, finger);
}

/// A displacement of `d` chip units in cursor units: the scale is a fraction with
/// a power of two as its denominator, and what does not fit a byte is cut off.
pub open spec fn cursor_units(d: int, num: u16, shift: u8) -> int {
    let units = d * num / (power2::pow2(shift as nat) as int);
    if units < -128 {
        -128
    } else if units > 127 {
        127
    } else {
        units
    }
}

/// The cursor follows the leading finger, one frame behind: where it stands at `a`
/// in one frame and at `b` in the next, the frame after that moves the cursor by
/// what lies between `a` and `b`, and by nothing else.
pub proof fn cursor_follows_the_finger(
    state: LegacyState,
    one: Frame,
    two: Frame,
    three: Frame,
    a: TrackpadFinger,
    b: TrackpadFinger,
    params: TrackpadParams,
)
    requires
        leads(one.fingers, a),
        leads(two.fingers, b),
        touching(three.fingers),
    ensures
        ({
            let shown = reports(after(after(state, one, params), two, params), three, params);
            &&& shown.len() == 1
            &&& shown[0] matches TrackpadReport::LegacyMouse(r) && r.x == cursor_units(
                b.x - a.x,
                params.scale_num_x,
                params.scale_shift,
            ) && r.y == cursor_units(b.y - a.y, params.scale_num_y, params.scale_shift)
        }),
{
    lemma_leader(one.fingers, a);
    lemma_leader(two.fingers, b);
    live_fingers_are_on_the_surface(three.fingers);
}

/// A finger at rest moves no cursor.
pub proof fn resting_finger_moves_no_cursor(
    state: LegacyState,
    one: Frame,
    two: Frame,
    three: Frame,
    a: TrackpadFinger,
    b: TrackpadFinger,
    params: TrackpadParams,
)
    requires
        leads(one.fingers, a),
        leads(two.fingers, b),
        a.x == b.x && a.y == b.y,
        touching(three.fingers),
    ensures
        ({
            let shown = reports(after(after(state, one, params), two, params), three, params);
            &&& shown.len() == 1
            &&& shown[0] matches TrackpadReport::LegacyMouse(r) && r.x == 0 && r.y == 0
        }),
{
    cursor_follows_the_finger(state, one, two, three, a, b, params);
    let p = power2::pow2(params.scale_shift as nat) as int;
    power2::lemma_pow2_pos(params.scale_shift as nat);
    assert(0 * params.scale_num_x == 0 && 0 * params.scale_num_y == 0);
    assert(0int / p == 0) by (nonlinear_arith)
        requires
            p > 0,
    ;
}

/// What the cursor is moved by covers the displacement to within one cursor unit,
/// rounded down, as far as a byte reaches.
pub proof fn cursor_units_round_down(d: int, num: u16, shift: u8)
    ensures
        ({
            let p = power2::pow2(shift as nat) as int;
            let units = cursor_units(d, num, shift);
            &&& -128 <= units <= 127
            &&& -128 < units ==> units * p <= d * num
            &&& units < 127 ==> d * num < (units + 1) * p
        }),
{
    let p = power2::pow2(shift as nat) as int;
    power2::lemma_pow2_pos(shift as nat);
    let v = d * num;
    let q = v / p;
    assert(q * p <= v < (q + 1) * p) by (nonlinear_arith)
        requires
            p > 0,
            q == v / p,
    ;
    if q > 127 {
        assert(127 * p <= q * p) by (nonlinear_arith)
            requires
                p > 0,
                q > 127,
        ;
    }
    if q < -128 {
        assert((q + 1) * p <= -127 * p) by (nonlinear_arith)
            requires
                p > 0,
                q < -128,
        ;
    }
}

/// A frame in which other fingers touch and no finger leads keeps the remembered
/// position and holds no motion back, so that the next frame moves no cursor and
/// the leading finger goes on from where it was.
pub proof fn gap_keeps_the_position(
    state: LegacyState,
    gap: Frame,
    next: Frame,
    params: TrackpadParams,
    i: int,
)
    requires
        leaderless(gap.fingers),
        touching(gap.fingers),
    ensures
        after(state, gap, params).prev_xy == state.prev_xy,
        ({
            let shown = reports(after(state, gap, params), next, params);
            0 <= i < shown.len() ==> !laws::moves(shown[i])
        }),
{
    lemma_leaderless(gap.fingers);
    live_fingers_are_on_the_surface(gap.fingers);
}

/// The cursor follows the leading finger across a gap in which only others touch.
pub proof fn cursor_follows_across_a_gap(
    state: LegacyState,
    one: Frame,
    gap: Frame,
    two: Frame,
    three: Frame,
    a: TrackpadFinger,
    b: TrackpadFinger,
    params: TrackpadParams,
)
    requires
        leads(one.fingers, a),
        leaderless(gap.fingers),
        touching(gap.fingers),
        leads(two.fingers, b),
        touching(three.fingers),
    ensures
        ({
            let before = after(after(state, one, params), gap, params);
            let shown = reports(after(before, two, params), three, params);
            &&& shown.len() == 1
            &&& shown[0] matches TrackpadReport::LegacyMouse(r) && r.x == cursor_units(
                b.x - a.x,
                params.scale_num_x,
                params.scale_shift,
            ) && r.y == cursor_units(b.y - a.y, params.scale_num_y, params.scale_shift)
        }),
{
    lemma_leader(one.fingers, a);
    lemma_leaderless(gap.fingers);
    live_fingers_are_on_the_surface(gap.fingers);
    lemma_leader(two.fingers, b);
    live_fingers_are_on_the_surface(three.fingers);
}

/// The session is a drag.
pub open spec fn dragging(session: Option<TouchSession>) -> bool {
    session matches Some(s) && s.hold_latched
}

/// While fingers touch, the buttons of a report are those that the keymap holds
/// down, with button 1 besides exactly if the touch is a drag.
pub proof fn touch_reports_show_the_buttons(
    state: LegacyState,
    frame: Frame,
    params: TrackpadParams,
    i: int,
)
    requires
        touching(frame.fingers),
        0 <= i < reports(state, frame, params).len(),
    ensures
        laws::buttons_of(reports(state, frame, params)[i]) == (if dragging(
            after(state, frame, params).session,
        ) {
            0b001 | frame.routed
        } else {
            frame.routed
        }),
{
    live_fingers_are_on_the_surface(frame.fingers);
    let routed = frame.routed;
    assert(0u8 | routed == routed) by (bit_vector);
}

/// While fingers touch, a frame reports once if the frame before held motion back
/// or the buttons are others than those of the last report, and nothing otherwise.
pub proof fn touch_reports_what_is_new(state: LegacyState, frame: Frame, params: TrackpadParams)
    requires
        touching(frame.fingers),
    ensures
        ({
            let buttons = if dragging(after(state, frame, params).session) {
                0b001 | frame.routed
            } else {
                frame.routed
            };
            reports(state, frame, params).len() == (if state.pending_motion is Some || buttons
                != state.last_buttons_emitted {
                1nat
            } else {
                0
            })
        }),
{
    live_fingers_are_on_the_surface(frame.fingers);
    let routed = frame.routed;
    assert(0u8 | routed == routed) by (bit_vector);
}

/// The decoder remembers the buttons of the last report that it made.
pub proof fn last_buttons_are_remembered(state: LegacyState, frame: Frame, params: TrackpadParams)
    ensures
        ({
            let shown = reports(state, frame, params);
            after(state, frame, params).last_buttons_emitted == (if shown.len() > 0 {
                laws::buttons_of(shown[shown.len() - 1])
            } else {
                state.last_buttons_emitted
            })
        }),
{
}

/// A touch is in progress behind a frame exactly if a finger touches in it.
pub proof fn touch_lasts_while_fingers_touch(
    state: LegacyState,
    frame: Frame,
    params: TrackpadParams,
)
    ensures
        after(state, frame, params).session is Some <==> touching(frame.fingers),
{
    live_fingers_are_on_the_surface(frame.fingers);
}

/// A frame without a touch, behind one without a touch, reports nothing.
pub proof fn empty_surface_is_silent(state: LegacyState, frame: Frame, params: TrackpadParams)
    requires
        state.session is None,
        !touching(frame.fingers),
    ensures
        reports(state, frame, params).len() == 0,
        after(state, frame, params).last_buttons_emitted == state.last_buttons_emitted,
{
    live_fingers_are_on_the_surface(frame.fingers);
}

/// A new decoder has seen no touch and no position, holds nothing back, and counts
/// no button as pressed: without buttons its first frame reports nothing.
pub proof fn new_decoder_is_silent(frame: Frame, params: TrackpadParams)
    requires
        frame.routed == 0,
    ensures
        legacy::fresh_legacy().session is None,
        legacy::fresh_legacy().prev_xy is None,
        legacy::fresh_legacy().pending_motion is None,
        legacy::fresh_legacy().last_buttons_emitted == 0,
        reports(legacy::fresh_legacy(), frame, params).len() == 0,
{
    assert(0u8 | 0u8 == 0) by (bit_vector);
}

/// A change of the keymap's buttons between two frames is one report without
/// motion, with button 1 besides during a drag; the same buttons as in the last
/// report are none. The touch and its motion are left alone.
pub proof fn button_changes_are_reported(state: LegacyState, routed: u8)
    ensures
        ({
            let buttons = if dragging(state.session) {
                0b001 | routed
            } else {
                routed
            };
            let next = legacy::button_state(state, routed);
            &&& legacy::button_reports(state, routed) == (if buttons == state.last_buttons_emitted {
                Seq::<TrackpadReport>::empty()
            } else {
                seq![
                    TrackpadReport::LegacyMouse(TrackpadLegacyMouseReport { buttons, x: 0, y: 0 }),
                ]
            })
            &&& next.last_buttons_emitted == buttons
            &&& next.session == state.session
            &&& next.prev_xy == state.prev_xy
            &&& next.pending_motion == state.pending_motion
        }),
{
    assert(0u8 | routed == routed) by (bit_vector);
}

/// The motion of a frame can be computed if nothing leads or nothing is
/// remembered, and otherwise exactly if the shift is less than 32 and both products
/// with the scale fit 32 bits.
pub proof fn motion_is_computable_within_32_bits(
    from: (u16, u16),
    fingers: Seq<TrackpadFinger>,
    finger: TrackpadFinger,
    params: TrackpadParams,
)
    ensures
        legacy::motion_computable(None, fingers, params),
        leaderless(fingers) ==> legacy::motion_computable(Some(from), fingers, params),
        leads(fingers, finger) ==> (legacy::motion_computable(Some(from), fingers, params) <==> {
            let x = (finger.x - from.0) * params.scale_num_x;
            let y = (finger.y - from.1) * params.scale_num_y;
            &&& params.scale_shift < 32
            &&& -0x8000_0000 <= x <= 0x7FFF_FFFF
            &&& -0x8000_0000 <= y <= 0x7FFF_FFFF
        }),
{
    if leaderless(fingers) {
        lemma_leaderless(fingers);
    }
    if leads(fingers, finger) {
        lemma_leader(fingers, finger);
    }
}

/// Cursor units of a displacement: rounded down, and cut off at 16 bits.
pub proof fn scale_rounds_down(d: int, num: u16, shift: u8)
    ensures
        ({
            let p = power2::pow2(shift as nat) as int;
            let units = legacy::scaled(d, num, shift);
            &&& -32768 <= units <= 32767
            &&& -32768 < units ==> units * p <= d * num
            &&& units < 32767 ==> d * num < (units + 1) * p
        }),
{
    let p = power2::pow2(shift as nat) as int;
    power2::lemma_pow2_pos(shift as nat);
    let v = d * num;
    let q = v / p;
    assert(q * p <= v < (q + 1) * p) by (nonlinear_arith)
        requires
            p > 0,
            q == v / p,
    ;
    if q > 32767 {
        assert(32767 * p <= q * p) by (nonlinear_arith)
            requires
                p > 0,
                q > 32767,
        ;
    }
    if q < -32768 {
        assert((q + 1) * p <= -32767 * p) by (nonlinear_arith)
            requires
                p > 0,
                q < -32768,
        ;
    }
}

} // verus!
