//! What the two decoders promise over frames and sessions.
use super::legacy;
use super::legacy::{LegacyState, TouchSession};
use super::params;
use super::params::{TrackpadDimensions, TrackpadParams};
use super::ptp;
use super::ptp::{PtpContact, PtpState};
use super::report;
use super::report::{
    TrackpadLegacyMouseReport, TrackpadPtpFinger, TrackpadReport, MAX_OUTPUTS, TRACKPAD_MAX_CONTACTS,
};
use crate::event::input::{TrackpadFinger, TRACKPAD_MAX_FINGERS};
use crate::math;
use crate::time;
use crate::time::Instant;
use vstd::prelude::*;

verus! {

/// The buttons of a report.
pub open spec fn buttons_of(report: TrackpadReport) -> u8 {
    match report {
        TrackpadReport::LegacyMouse(r) => r.buttons,
        TrackpadReport::Ptp(r) => r.button,
    }
}

/// A mouse report with these buttons and no motion.
pub open spec fn motionless(buttons: u8) -> TrackpadReport {
    TrackpadReport::LegacyMouse(TrackpadLegacyMouseReport { buttons, x: 0, y: 0 })
}

/// A squared distance is within the tap budget, and there is a budget.
pub open spec fn in_reach(distance_sq: int, params: TrackpadParams) -> bool {
    0 < params.tap_max_dev_chip_sq && distance_sq <= params.tap_max_dev_chip_sq
}

/// The report moves the cursor.
pub open spec fn moves(report: TrackpadReport) -> bool {
    report matches TrackpadReport::LegacyMouse(r) && (r.x != 0 || r.y != 0)
}

/// A frame as a decoder sees it: the finger records, the time and the buttons
/// that the keymap holds down on this trackpad.
pub struct Frame {
    pub fingers: Seq<TrackpadFinger>,
    pub now: Instant,
    pub routed: u8,
}

/// The state of the mouse decoder after a series of frames.
pub open spec fn after_frames(
    state: LegacyState,
    frames: Seq<Frame>,
    params: TrackpadParams,
) -> LegacyState
    decreases frames.len(),
{
    if frames.len() == 0 {
        state
    } else {
        let frame = frames.last();
        legacy::frame_state(
            after_frames(state, frames.drop_last(), params),
            frame.fingers,
            params,
            frame.now,
            frame.routed,
        )
    }
}

/// Every frame has a finger on the surface, and no more records than a frame
/// holds.
pub open spec fn no_lift(frames: Seq<Frame>) -> bool {
    forall|i: int|
        0 <= i < frames.len() ==> legacy::live_count(#[trigger] frames[i].fingers) > 0
            && frames[i].fingers.len() <= TRACKPAD_MAX_FINGERS
}

/// A series without a lift has none before its last frame.
proof fn lemma_no_lift_before_last(frames: Seq<Frame>)
    requires
        no_lift(frames),
        frames.len() > 0,
    ensures
        no_lift(frames.drop_last()),
        legacy::live_count(frames.last().fingers) > 0,
        frames.last().fingers.len() <= TRACKPAD_MAX_FINGERS,
{
    assert forall|i: int| 0 <= i < frames.drop_last().len() implies legacy::live_count(
        #[trigger] frames.drop_last()[i].fingers,
    ) > 0 && frames.drop_last()[i].fingers.len() <= TRACKPAD_MAX_FINGERS by {
        assert(legacy::live_count(frames[i].fingers) > 0);
    }
    assert(legacy::live_count(frames[frames.len() - 1].fingers) > 0);
}

/// No more fingers are live than have records.
proof fn lemma_live_count_bound(fingers: Seq<TrackpadFinger>)
    ensures
        legacy::live_count(fingers) <= fingers.len(),
    decreases fingers.len(),
{
    if fingers.len() > 0 {
        lemma_live_count_bound(fingers.drop_last());
    }
}

/// A frame never produces more reports than the queue takes, so that an empty
/// queue holds all of them.
pub proof fn no_mouse_report_is_dropped(
    state: LegacyState,
    fingers: Seq<TrackpadFinger>,
    params: TrackpadParams,
    now: Instant,
    routed: u8,
)
    ensures
        legacy::frame_reports(state, fingers, params, now, routed).len() <= MAX_OUTPUTS,
        report::enqueued(
            Seq::empty(),
            legacy::frame_reports(state, fingers, params, now, routed),
        ) == legacy::frame_reports(state, fingers, params, now, routed),
{
    assert(Seq::empty() + legacy::frame_reports(state, fingers, params, now, routed)
        =~= legacy::frame_reports(state, fingers, params, now, routed));
}

/// A short and still touch clicks when it ends: one press and one release,
/// button 1 for one finger and button 2 for more.
pub proof fn tap_clicks_once(
    state: LegacyState,
    session: TouchSession,
    fingers: Seq<TrackpadFinger>,
    params: TrackpadParams,
    now: Instant,
    routed: u8,
)
    requires
        state.session == Some(session),
        legacy::live_count(fingers) == 0,
        !session.hold_latched,
        in_reach(session.max_dev_sq as int, params),
        time::elapsed(now, session.begin) <= params.tap_time.ticks,
    ensures
        legacy::frame_reports(state, fingers, params, now, routed) == seq![
            motionless(
                (if session.max_n == 1 {
                    0b001u8
                } else {
                    0b010u8
                }) | routed,
            ),
            motionless(routed),
        ],
{
}

/// A touch that moved beyond the tap budget or lasted beyond the tap time ends
/// without a click, unless it became a drag. Without a budget no touch clicks.
pub proof fn motion_or_duration_is_no_tap(
    state: LegacyState,
    session: TouchSession,
    fingers: Seq<TrackpadFinger>,
    params: TrackpadParams,
    now: Instant,
    routed: u8,
)
    requires
        state.session == Some(session),
        !session.hold_latched,
        legacy::live_count(fingers) == 0,
        params.tap_max_dev_chip_sq == 0 || session.max_dev_sq > params.tap_max_dev_chip_sq
            || time::elapsed(now, session.begin) > params.tap_time.ticks,
    ensures
        legacy::frame_reports(state, fingers, params, now, routed).len() == 0,
{
}

/// A drag ends with its release and never with a click.
pub proof fn drag_ends_with_a_release(
    state: LegacyState,
    session: TouchSession,
    fingers: Seq<TrackpadFinger>,
    params: TrackpadParams,
    now: Instant,
    routed: u8,
)
    requires
        state.session == Some(session),
        session.hold_latched,
        legacy::live_count(fingers) == 0,
    ensures
        legacy::frame_reports(state, fingers, params, now, routed) == seq![
            motionless(routed),
        ],
{
}

/// A lift moves no cursor, whatever motion was held back, and forgets the
/// touch.
pub proof fn lift_discards_motion(
    state: LegacyState,
    fingers: Seq<TrackpadFinger>,
    params: TrackpadParams,
    now: Instant,
    routed: u8,
    i: int,
)
    requires
        legacy::live_count(fingers) == 0,
    ensures
        0 <= i < legacy::frame_reports(state, fingers, params, now, routed).len() ==> !moves(
            legacy::frame_reports(state, fingers, params, now, routed)[i],
        ),
        ({
            let after = legacy::frame_state(state, fingers, params, now, routed);
            after.session is None && after.prev_xy is None && after.pending_motion is None
        }),
{
}

/// The two frames that follow a lift move no cursor: the first has no position
/// to compare with, and the motion of the second is held back.
pub proof fn touch_starts_without_motion(
    state: LegacyState,
    lift: Frame,
    first: Frame,
    second: Frame,
    params: TrackpadParams,
    i: int,
)
    requires
        legacy::live_count(lift.fingers) == 0,
    ensures
        ({
            let up = legacy::frame_state(state, lift.fingers, params, lift.now, lift.routed);
            let down = legacy::frame_state(up, first.fingers, params, first.now, first.routed);
            let on_first = legacy::frame_reports(
                up,
                first.fingers,
                params,
                first.now,
                first.routed,
            );
            let on_second = legacy::frame_reports(
                down,
                second.fingers,
                params,
                second.now,
                second.routed,
            );
            &&& 0 <= i < on_first.len() ==> !moves(on_first[i])
            &&& 0 <= i < on_second.len() ==> !moves(on_second[i])
        }),
{
}

/// Without a lift a drag stays a drag: button 1 is held down after every frame.
pub proof fn drag_lasts_until_the_lift(
    state: LegacyState,
    session: TouchSession,
    frames: Seq<Frame>,
    params: TrackpadParams,
)
    requires
        state.session == Some(session),
        session.hold_latched,
        no_lift(frames),
    ensures
        after_frames(state, frames, params).session matches Some(s) && s.hold_latched,
        legacy::held_button(after_frames(state, frames, params).session) == 0b001,
    decreases frames.len(),
{
    if frames.len() > 0 {
        lemma_no_lift_before_last(frames);
        drag_lasts_until_the_lift(state, session, frames.drop_last(), params);
    }
}

/// A touch that had two fingers at once, or left the tap budget, never becomes a
/// drag, however long it lasts. Without a budget no touch does.
pub proof fn no_drag_after_motion_or_second_finger(
    state: LegacyState,
    session: TouchSession,
    frames: Seq<Frame>,
    params: TrackpadParams,
)
    requires
        state.session == Some(session),
        !session.hold_latched,
        session.max_n >= 2 || !in_reach(session.max_dev_sq as int, params),
        no_lift(frames),
    ensures
        after_frames(state, frames, params).session matches Some(s) && !s.hold_latched && (s.max_n
            >= 2 || !in_reach(s.max_dev_sq as int, params)),
    decreases frames.len(),
{
    if frames.len() > 0 {
        lemma_no_lift_before_last(frames);
        no_drag_after_motion_or_second_finger(state, session, frames.drop_last(), params);
        lemma_live_count_bound(frames.last().fingers);
    }
}

/// The buttons that the keymap holds down are in every report of a frame.
pub proof fn routed_buttons_are_in_every_report(
    state: LegacyState,
    fingers: Seq<TrackpadFinger>,
    params: TrackpadParams,
    now: Instant,
    routed: u8,
    i: int,
)
    requires
        0 <= i < legacy::frame_reports(state, fingers, params, now, routed).len(),
    ensures
        buttons_of(legacy::frame_reports(state, fingers, params, now, routed)[i]) & routed
            == routed,
{
    assert forall|own: u8| #[trigger] (own | routed) & routed == routed by {
        assert((own | routed) & routed == routed) by (bit_vector);
    }
    assert(routed & routed == routed) by (bit_vector);
}

/// A change of buttons is reported once: the same buttons again are no news.
pub proof fn repeated_buttons_are_silent(state: LegacyState, routed: u8)
    ensures
        legacy::button_reports(
            LegacyState {
                last_buttons_emitted: legacy::held_button(state.session) | routed,
                ..state
            },
            routed,
        ) == Seq::<TrackpadReport>::empty(),
{
}

/// A touchpad report has room for every contact of a frame, and for every live
/// contact.
pub proof fn every_contact_fits(
    contacts: Seq<PtpContact>,
    fingers: Seq<TrackpadFinger>,
    dims: TrackpadDimensions,
)
    ensures
        ptp::frame_records(contacts, fingers, dims, 5).len() <= TRACKPAD_MAX_CONTACTS,
        ptp::live_records(contacts, dims, 5).len() <= TRACKPAD_MAX_CONTACTS,
{
    ptp::lemma_frame_records_len(contacts, fingers, dims, 5);
    ptp::lemma_live_records_len(contacts, dims, 5);
}

/// The records of a frame are in ascending order of contact id, so that no
/// contact is in a report twice, and lie on the panel.
pub proof fn records_ascend(
    contacts: Seq<PtpContact>,
    fingers: Seq<TrackpadFinger>,
    dims: TrackpadDimensions,
    end: int,
    i: int,
    j: int,
)
    requires
        0 <= end <= 5,
        0 <= i <= j < ptp::frame_records(contacts, fingers, dims, end).len(),
    ensures
        ({
            let records = ptp::frame_records(contacts, fingers, dims, end);
            &&& i < j ==> records[i].contact_id < records[j].contact_id
            &&& records[j].contact_id < end
            &&& records[j].x <= dims.logical_max_x
            &&& records[j].y <= dims.logical_max_y
        }),
    decreases end,
{
    if end > 0 {
        let before = ptp::frame_records(contacts, fingers, dims, end - 1);
        if j < before.len() {
            records_ascend(contacts, fingers, dims, end - 1, i, j);
        } else if i < before.len() {
            records_ascend(contacts, fingers, dims, end - 1, i, i);
        }
    }
}

/// Contact `id` is in the report of a frame exactly if it has a record there or
/// was active before; what is reported of it is what [`ptp::contact_record`]
/// says.
pub proof fn contacts_are_reported(
    contacts: Seq<PtpContact>,
    fingers: Seq<TrackpadFinger>,
    dims: TrackpadDimensions,
    end: int,
    id: int,
)
    requires
        0 <= id < end <= 5,
    ensures
        ({
            let records = ptp::frame_records(contacts, fingers, dims, end);
            match ptp::contact_record(contacts[id], ptp::latest(fingers, id), id, dims) {
                Some(record) => records.contains(record),
                None => forall|i: int|
                    0 <= i < records.len() ==> #[trigger] records[i].contact_id != id,
            }
        }),
    decreases end,
{
    let records = ptp::frame_records(contacts, fingers, dims, end);
    let before = ptp::frame_records(contacts, fingers, dims, end - 1);
    let own = ptp::contact_record(contacts[id], ptp::latest(fingers, id), id, dims);
    if id == end - 1 {
        if own is Some {
            assert(records[records.len() - 1] == own->0);
        } else {
            assert forall|i: int| 0 <= i < records.len() implies #[trigger] records[i].contact_id
                != id by {
                records_ascend(contacts, fingers, dims, end - 1, i, i);
            }
        }
    } else {
        contacts_are_reported(contacts, fingers, dims, end - 1, id);
        if own is Some {
            let k = choose|k: int| 0 <= k < before.len() && before[k] == own->0;
            assert(records[k] == own->0);
        } else {
            assert forall|i: int| 0 <= i < records.len() implies #[trigger] records[i].contact_id
                != id by {
                if i < before.len() {
                    assert(before[i].contact_id != id);
                }
            }
        }
    }
}

/// A contact that drops out of the frames is lifted once: at its last known
/// position in the first frame without it, and not at all in the next.
pub proof fn dropped_contact_is_lifted_once(contact: PtpContact, id: int, dims: TrackpadDimensions)
    requires
        contact.active,
    ensures
        ptp::contact_record(contact, None, id, dims) == Some(
            ptp::placed(id, contact.x, contact.y, true, false, dims),
        ),
        ptp::contact_record(ptp::contact_after(contact, None), None, id, dims) == None::<
            TrackpadPtpFinger,
        >,
{
}

/// A contact whose lift was in a frame is not lifted again.
pub proof fn reported_lift_is_not_repeated(
    contact: PtpContact,
    finger: TrackpadFinger,
    id: int,
    dims: TrackpadDimensions,
)
    requires
        !finger.tip,
    ensures
        ptp::contact_record(ptp::contact_after(contact, Some(finger)), None, id, dims) == None::<
            TrackpadPtpFinger,
        >,
{
}

/// The scan time counts 100-microsecond steps and wraps at 16 bits.
pub proof fn scan_time_wraps(now: Instant, later: Instant)
    requires
        later.ticks == now.ticks + 0x1_0000 * 100,
    ensures
        0 <= ptp::scan_clock(now) < 0x1_0000,
        ptp::scan_clock(later) == ptp::scan_clock(now),
{
}

/// After a change of mode the mouse starts clean: its first frame moves no
/// cursor, and holds down no button but those of the keymap.
pub proof fn mouse_starts_clean(
    fingers: Seq<TrackpadFinger>,
    params: TrackpadParams,
    now: Instant,
    routed: u8,
    i: int,
)
    requires
        0 <= i < legacy::frame_reports(
            legacy::fresh_legacy(),
            fingers,
            params,
            now,
            routed,
        ).len(),
    ensures
        !moves(legacy::frame_reports(legacy::fresh_legacy(), fingers, params, now, routed)[i]),
        buttons_of(legacy::frame_reports(legacy::fresh_legacy(), fingers, params, now, routed)[i])
            == routed,
{
    assert(0u8 | routed == routed) by (bit_vector);
}

/// After a change of mode the touchpad starts clean: its first frame reports the
/// contacts that have a record in it, and lifts none from before.
pub proof fn touchpad_starts_clean(
    state: PtpState,
    fingers: Seq<TrackpadFinger>,
    dims: TrackpadDimensions,
    id: int,
)
    requires
        ptp::is_fresh(state),
        0 <= id < TRACKPAD_MAX_CONTACTS,
    ensures
        ptp::contact_record(state.contacts@[id], ptp::latest(fingers, id), id, dims) is Some
            <==> ptp::latest(fingers, id) is Some,
{
}

/// The motion of a frame is in the report of the next, unless that is a lift.
pub proof fn motion_shows_one_frame_later(
    state: LegacyState,
    frame: Frame,
    next: Frame,
    params: TrackpadParams,
    from: (u16, u16),
    to: TrackpadFinger,
)
    requires
        legacy::live_count(frame.fingers) > 0,
        legacy::live_count(next.fingers) > 0,
        state.prev_xy == Some(from),
        legacy::primary(frame.fingers) == Some(to),
    ensures
        ({
            let between = legacy::frame_state(
                state,
                frame.fingers,
                params,
                frame.now,
                frame.routed,
            );
            let reports = legacy::frame_reports(
                between,
                next.fingers,
                params,
                next.now,
                next.routed,
            );
            &&& reports.len() == 1
            &&& reports[0] matches TrackpadReport::LegacyMouse(r) && r.x == math::confined(
                legacy::scaled(to.x - from.0, params.scale_num_x, params.scale_shift),
                i8::MIN as int,
                i8::MAX as int,
            ) && r.y == math::confined(
                legacy::scaled(to.y - from.1, params.scale_num_y, params.scale_shift),
                i8::MIN as int,
                i8::MAX as int,
            )
        }),
{
}

/// A click of the keymap is reported without a finger on the surface: a press
/// and its release between two frames give two reports.
pub proof fn clicks_need_no_finger(state: LegacyState, button: u8)
    requires
        state.session is None,
        state.last_buttons_emitted == 0,
        button != 0,
    ensures
        legacy::button_reports(state, button) == seq![motionless(button)],
        legacy::button_reports(LegacyState { last_buttons_emitted: button, ..state }, 0) == seq![
            motionless(0),
        ],
{
    assert(0u8 | button == button && 0u8 | 0u8 == 0) by (bit_vector);
}

/// The most fingers that were down at once in a series of frames.
pub open spec fn greatest_count(frames: Seq<Frame>) -> int
    decreases frames.len(),
{
    if frames.len() == 0 {
        0
    } else {
        math::greater(
            greatest_count(frames.drop_last()),
            legacy::live_count(frames.last().fingers) as int,
        )
    }
}

/// The position that a touch is measured from: that of finger 0 in its first
/// frame, or the origin if the touch begins with another finger.
pub open spec fn opening(frames: Seq<Frame>) -> (int, int) {
    match legacy::primary(frames[0].fingers) {
        Some(f) => (f.x as int, f.y as int),
        None => (0, 0),
    }
}

/// Squared distance of `finger` from `start`.
pub open spec fn distance_sq(start: (int, int), finger: TrackpadFinger) -> int {
    (finger.x - start.0) * (finger.x - start.0) + (finger.y - start.1) * (finger.y - start.1)
}

/// The greatest squared distance of finger 0 from the opening position, over the
/// frames behind the first.
pub open spec fn greatest_distance_sq(frames: Seq<Frame>) -> int
    decreases frames.len(),
{
    if frames.len() <= 1 {
        0
    } else {
        let before = greatest_distance_sq(frames.drop_last());
        match legacy::primary(frames.last().fingers) {
            Some(f) => math::greater(before, distance_sq(opening(frames), f)),
            None => before,
        }
    }
}

/// One finger alone has been down for the hold time at frame `j` of a touch: it is
/// finger 0, and the frame is behind the first.
pub open spec fn held_at(frames: Seq<Frame>, params: TrackpadParams, j: int) -> bool {
    &&& 1 <= j < frames.len()
    &&& legacy::primary(frames[j].fingers) is Some
    &&& greatest_count(frames.take(j + 1)) == 1
    &&& time::elapsed(frames[j].now, frames[0].now) >= params.hold_time.ticks
}

/// Frame `j` of a touch turns it into a drag: one finger alone has been down for
/// the hold time and has stayed within a budget that is not zero.
pub open spec fn holds_at(frames: Seq<Frame>, params: TrackpadParams, j: int) -> bool {
    &&& held_at(frames, params, j)
    &&& in_reach(greatest_distance_sq(frames.take(j + 1)), params)
}

/// Some frame of the touch turned it into a drag.
pub open spec fn is_drag(frames: Seq<Frame>, params: TrackpadParams) -> bool {
    exists|j: int| #[trigger] holds_at(frames, params, j)
}

/// What a lift reports: the release of a drag, a click, or nothing. The click is of
/// button 1 if one finger was down at most, and of button 2 otherwise.
pub open spec fn lift_reports(
    frames: Seq<Frame>,
    lift: Frame,
    drag: bool,
    tap: bool,
) -> Seq<TrackpadReport> {
    if drag {
        seq![motionless(lift.routed)]
    } else if tap {
        seq![
            motionless(
                (if greatest_count(frames) == 1 {
                    0b001u8
                } else {
                    0b010u8
                }) | lift.routed,
            ),
            motionless(lift.routed),
        ]
    } else {
        Seq::empty()
    }
}

/// A touch remembers its frames: when it began and where, the most fingers that
/// were down at once, and how far finger 0 got from the opening position, capped
/// at the greatest `i32`.
pub proof fn touch_remembers_its_frames(
    state: LegacyState,
    frames: Seq<Frame>,
    params: TrackpadParams,
)
    requires
        state.session is None,
        no_lift(frames),
        frames.len() > 0,
    ensures
        after_frames(state, frames, params).session matches Some(s) && {
            &&& s.begin == frames[0].now
            &&& (s.start_x as int, s.start_y as int) == opening(frames)
            &&& s.max_n == greatest_count(frames)
            &&& s.max_dev_sq == math::lesser(greatest_distance_sq(frames), i32::MAX as int)
        },
    decreases frames.len(),
{
    let before = frames.drop_last();
    lemma_no_lift_before_last(frames);
    lemma_live_count_bound(frames.last().fingers);
    if before.len() == 0 {
        assert(after_frames(state, before, params) == state);
        assert(greatest_count(before) == 0);
    } else {
        touch_remembers_its_frames(state, before, params);
        assert(before[0] == frames[0]);
        if let Some(f) = legacy::primary(frames.last().fingers) {
            let p = after_frames(state, before, params).session->0;
            assert(legacy::deviation_sq(p, f) == math::lesser(
                distance_sq(opening(frames), f),
                i32::MAX as int,
            ));
            lemma_distance_is_positive(opening(frames), f);
        }
    }
}

/// A squared distance is not negative.
proof fn lemma_distance_is_positive(start: (int, int), finger: TrackpadFinger)
    ensures
        distance_sq(start, finger) >= 0,
{
    let dx = finger.x - start.0;
    let dy = finger.y - start.1;
    assert(dx * dx >= 0 && dy * dy >= 0) by (nonlinear_arith);
}

/// The front of a touch goes no further than all of it.
proof fn lemma_distance_grows(frames: Seq<Frame>, count: int)
    requires
        0 <= count <= frames.len(),
    ensures
        0 <= greatest_distance_sq(frames.take(count)) <= greatest_distance_sq(frames),
    decreases frames.len(),
{
    if count == frames.len() {
        assert(frames.take(count) =~= frames);
    }
    if frames.len() > 1 {
        let before = frames.drop_last();
        if count < frames.len() {
            lemma_distance_grows(before, count);
            assert(before.take(count) =~= frames.take(count));
        } else {
            lemma_distance_grows(before, count - 1);
        }
    }
}

/// Frame `j` of a touch latches it: as [`holds_at`], with the distance as it is
/// remembered.
spec fn latches_at(frames: Seq<Frame>, params: TrackpadParams, j: int) -> bool {
    &&& held_at(frames, params, j)
    &&& in_reach(
        math::lesser(greatest_distance_sq(frames.take(j + 1)), i32::MAX as int),
        params,
    )
}

/// A touch is latched exactly if one of its frames latched it.
proof fn lemma_latched(state: LegacyState, frames: Seq<Frame>, params: TrackpadParams)
    requires
        state.session is None,
        no_lift(frames),
        frames.len() > 0,
    ensures
        after_frames(state, frames, params).session matches Some(s) && s.hold_latched == (exists|
            j: int,
        | #[trigger] latches_at(frames, params, j)),
    decreases frames.len(),
{
    let before = frames.drop_last();
    let last = frames.len() - 1;
    lemma_no_lift_before_last(frames);
    lemma_live_count_bound(frames.last().fingers);
    touch_remembers_its_frames(state, frames, params);
    assert(frames.take(last + 1) =~= frames);
    assert(frames[last] == frames.last());
    if before.len() == 0 {
        assert(after_frames(state, before, params) == state);
        assert forall|j: int| !#[trigger] latches_at(frames, params, j) by {}
    } else {
        lemma_latched(state, before, params);
        touch_remembers_its_frames(state, before, params);
        assert forall|j: int| j < last implies #[trigger] latches_at(frames, params, j)
            == latches_at(before, params, j) by {
            if 1 <= j < last {
                assert(before.take(j + 1) =~= frames.take(j + 1));
                assert(before[j] == frames[j]);
            }
        }
        let s = after_frames(state, frames, params).session->0;
        let p = after_frames(state, before, params).session->0;
        assert(s.hold_latched == (p.hold_latched || latches_at(frames, params, last)));
        if p.hold_latched {
            let j = choose|j: int| #[trigger] latches_at(before, params, j);
            assert(latches_at(frames, params, j));
        }
        if exists|j: int| #[trigger] latches_at(frames, params, j) {
            let j = choose|j: int| #[trigger] latches_at(frames, params, j);
            assert(j < last ==> latches_at(before, params, j));
        }
    }
}

/// A touch becomes a drag in exactly the frames that [`holds_at`] describes: the
/// touch is latched behind a frame if it was before, or if one finger alone has
/// stayed within the budget for the hold time.
///
/// The distance is remembered up to the greatest `i32`, so a budget from there up
/// must not be exceeded. [`great_budget_is_never_exceeded`] says what comes of it
/// otherwise.
pub proof fn touch_becomes_a_drag(state: LegacyState, frames: Seq<Frame>, params: TrackpadParams)
    requires
        state.session is None,
        no_lift(frames),
        frames.len() > 0,
        params.tap_max_dev_chip_sq < i32::MAX || greatest_distance_sq(frames)
            <= params.tap_max_dev_chip_sq,
    ensures
        after_frames(state, frames, params).session matches Some(s) && s.hold_latched == is_drag(
            frames,
            params,
        ),
{
    lemma_latched(state, frames, params);
    assert forall|j: int| #[trigger] holds_at(frames, params, j) == latches_at(frames, params, j) by {
        if held_at(frames, params, j) {
            lemma_distance_grows(frames, j + 1);
        }
    }
    if is_drag(frames, params) {
        let j = choose|j: int| #[trigger] holds_at(frames, params, j);
        assert(latches_at(frames, params, j));
    }
    if exists|j: int| #[trigger] latches_at(frames, params, j) {
        let j = choose|j: int| #[trigger] latches_at(frames, params, j);
        assert(holds_at(frames, params, j));
    }
}

/// What the end of a touch reports, in terms of its frames: a release if it is a
/// drag; a click if it is none, stayed within a budget that is not zero and ended
/// within the tap time; nothing otherwise.
///
/// As in [`touch_becomes_a_drag`], a budget from the greatest `i32` up must not be
/// exceeded.
pub proof fn touch_ends_with_a_click(
    state: LegacyState,
    frames: Seq<Frame>,
    lift: Frame,
    params: TrackpadParams,
)
    requires
        state.session is None,
        no_lift(frames),
        frames.len() > 0,
        legacy::live_count(lift.fingers) == 0,
        params.tap_max_dev_chip_sq < i32::MAX || greatest_distance_sq(frames)
            <= params.tap_max_dev_chip_sq,
    ensures
        legacy::frame_reports(
            after_frames(state, frames, params),
            lift.fingers,
            params,
            lift.now,
            lift.routed,
        ) == lift_reports(
            frames,
            lift,
            is_drag(frames, params),
            in_reach(greatest_distance_sq(frames), params) && time::elapsed(
                lift.now,
                frames[0].now,
            ) <= params.tap_time.ticks,
        ),
{
    touch_remembers_its_frames(state, frames, params);
    touch_becomes_a_drag(state, frames, params);
}

/// A budget from the greatest `i32` up is never exceeded, whatever the distance:
/// the touch becomes a drag once one finger alone has been down for the hold time,
/// and otherwise its end is a click within the tap time.
pub proof fn great_budget_is_never_exceeded(
    state: LegacyState,
    frames: Seq<Frame>,
    lift: Frame,
    params: TrackpadParams,
)
    requires
        state.session is None,
        no_lift(frames),
        frames.len() > 0,
        legacy::live_count(lift.fingers) == 0,
        params.tap_max_dev_chip_sq >= i32::MAX,
    ensures
        after_frames(state, frames, params).session matches Some(s) && s.hold_latched == (exists|
            j: int,
        | #[trigger] held_at(frames, params, j)),
        legacy::frame_reports(
            after_frames(state, frames, params),
            lift.fingers,
            params,
            lift.now,
            lift.routed,
        ) == lift_reports(
            frames,
            lift,
            exists|j: int| #[trigger] held_at(frames, params, j),
            time::elapsed(lift.now, frames[0].now) <= params.tap_time.ticks,
        ),
{
    touch_remembers_its_frames(state, frames, params);
    lemma_latched(state, frames, params);
    if exists|j: int| #[trigger] held_at(frames, params, j) {
        let j = choose|j: int| #[trigger] held_at(frames, params, j);
        assert(latches_at(frames, params, j));
    }
    if exists|j: int| #[trigger] latches_at(frames, params, j) {
        let j = choose|j: int| #[trigger] latches_at(frames, params, j);
        assert(held_at(frames, params, j));
    }
}

/// Once a touch is a drag, every report of its frames holds button 1 down, until
/// all fingers lift.
pub proof fn drag_reports_hold_button_1(
    state: LegacyState,
    session: TouchSession,
    frames: Seq<Frame>,
    next: Frame,
    params: TrackpadParams,
    i: int,
)
    requires
        state.session == Some(session),
        session.hold_latched,
        no_lift(frames),
        legacy::live_count(next.fingers) > 0,
        0 <= i < legacy::frame_reports(
            after_frames(state, frames, params),
            next.fingers,
            params,
            next.now,
            next.routed,
        ).len(),
    ensures
        buttons_of(
            legacy::frame_reports(
                after_frames(state, frames, params),
                next.fingers,
                params,
                next.now,
                next.routed,
            )[i],
        ) & 0b001 == 0b001,
{
    drag_lasts_until_the_lift(state, session, frames, params);
    let routed = next.routed;
    assert((1u8 | routed) & 1 == 1) by (bit_vector);
}

/// A panel without extent has no tap budget, so that its touches neither click
/// nor become drags.
pub proof fn panel_without_extent_has_no_taps(
    dims: TrackpadDimensions,
    mm: u16,
    params: TrackpadParams,
    session: TouchSession,
    now: Instant,
)
    requires
        dims.physical_dmm_x == 0,
        params.tap_max_dev_chip_sq == params::tap_budget(dims, mm) * params::tap_budget(dims, mm),
    ensures
        params.tap_max_dev_chip_sq == 0,
        !legacy::is_tap(session, params, now),
        !legacy::hold_due(session, params, now),
{
    assert(0 * mm == 0);
    assert(params::tap_budget(dims, mm) == 0);
}

/// The records that a change of buttons repeats are in ascending order of contact
/// id and lie on the panel.
pub proof fn live_records_ascend(
    contacts: Seq<PtpContact>,
    dims: TrackpadDimensions,
    end: int,
    i: int,
    j: int,
)
    requires
        0 <= end <= 5,
        0 <= i <= j < ptp::live_records(contacts, dims, end).len(),
    ensures
        ({
            let records = ptp::live_records(contacts, dims, end);
            &&& i < j ==> records[i].contact_id < records[j].contact_id
            &&& records[j].contact_id < end
            &&& records[j].x <= dims.logical_max_x
            &&& records[j].y <= dims.logical_max_y
        }),
    decreases end,
{
    if end > 0 {
        let before = ptp::live_records(contacts, dims, end - 1);
        if j < before.len() {
            live_records_ascend(contacts, dims, end - 1, i, j);
        } else if i < before.len() {
            live_records_ascend(contacts, dims, end - 1, i, i);
        }
    }
}

/// A change of buttons repeats contact `id` exactly if it is active, at its last
/// known position.
pub proof fn live_contacts_are_reported(
    contacts: Seq<PtpContact>,
    dims: TrackpadDimensions,
    end: int,
    id: int,
)
    requires
        0 <= id < end <= 5,
    ensures
        ({
            let records = ptp::live_records(contacts, dims, end);
            if contacts[id].active {
                records.contains(
                    ptp::placed(id, contacts[id].x, contacts[id].y, true, true, dims),
                )
            } else {
                forall|i: int| 0 <= i < records.len() ==> #[trigger] records[i].contact_id != id
            }
        }),
    decreases end,
{
    let records = ptp::live_records(contacts, dims, end);
    let before = ptp::live_records(contacts, dims, end - 1);
    let own = ptp::placed(id, contacts[id].x, contacts[id].y, true, true, dims);
    if id == end - 1 {
        if contacts[id].active {
            assert(records[records.len() - 1] == own);
        } else {
            assert forall|i: int| 0 <= i < records.len() implies #[trigger] records[i].contact_id
                != id by {
                live_records_ascend(contacts, dims, end - 1, i, i);
            }
        }
    } else {
        live_contacts_are_reported(contacts, dims, end - 1, id);
        if contacts[id].active {
            let k = choose|k: int| 0 <= k < before.len() && before[k] == own;
            assert(records[k] == own);
        } else {
            assert forall|i: int| 0 <= i < records.len() implies #[trigger] records[i].contact_id
                != id by {
                if i < before.len() {
                    assert(before[i].contact_id != id);
                }
            }
        }
    }
}

} // verus!
