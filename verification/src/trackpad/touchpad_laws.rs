//! What the touchpad decoder tells the host of each finger.
use super::laws;
use super::params::TrackpadDimensions;
use super::ptp;
use super::ptp::{PtpContact, PtpState};
use super::report::{TrackpadPtpFinger, TrackpadPtpReport};
use crate::event::input::TrackpadFinger;
use crate::time::Instant;
use vstd::prelude::*;

verus! {

/// Record `i` is the last one of contact `id` in a frame.
pub open spec fn is_last_of(fingers: Seq<TrackpadFinger>, i: int, id: int) -> bool {
    &&& 0 <= i < fingers.len()
    &&& fingers[i].id == id
    &&& forall|j: int| i < j < fingers.len() ==> (#[trigger] fingers[j]).id != id
}

/// A frame has no record of contact `id`.
pub open spec fn lacks(fingers: Seq<TrackpadFinger>, id: int) -> bool {
    forall|j: int| 0 <= j < fingers.len() ==> (#[trigger] fingers[j]).id != id
}

/// The records of `report` that count hold one of contact `id` with this tip switch
/// and confidence, at (`x`, `y`) or the nearest point on the panel.
pub open spec fn shows(
    report: TrackpadPtpReport,
    id: int,
    x: u16,
    y: u16,
    tip: bool,
    confidence: bool,
    dims: TrackpadDimensions,
) -> bool {
    exists|k: int|
        {
            &&& 0 <= k < report.contact_count
            &&& (#[trigger] report.fingers@[k]).contact_id == id
            &&& report.fingers@[k].tip_switch == tip
            &&& report.fingers@[k].confidence == confidence
            &&& report.fingers@[k].x == (if x <= dims.logical_max_x {
                x
            } else {
                dims.logical_max_x
            })
            &&& report.fingers@[k].y == (if y <= dims.logical_max_y {
                y
            } else {
                dims.logical_max_y
            })
        }
}

/// The records of `report` that count hold none of contact `id`.
pub open spec fn hides(report: TrackpadPtpReport, id: int) -> bool {
    forall|k: int|
        0 <= k < report.contact_count ==> (#[trigger] report.fingers@[k]).contact_id != id
}

/// `report` is what a frame makes of the contacts so far.
pub open spec fn is_frame_report(
    report: TrackpadPtpReport,
    contacts: Seq<PtpContact>,
    fingers: Seq<TrackpadFinger>,
    dims: TrackpadDimensions,
    now: Instant,
    button: u8,
) -> bool {
    ptp::carries(
        report,
        ptp::frame_records(contacts, fingers, dims, 5),
        now,
        ptp::ptp_buttons(button),
    )
}

/// `report` is what a change of buttons makes of the contacts.
pub open spec fn is_button_report(
    report: TrackpadPtpReport,
    contacts: Seq<PtpContact>,
    dims: TrackpadDimensions,
    now: Instant,
    button: u8,
) -> bool {
    ptp::carries(report, ptp::live_records(contacts, dims, 5), now, ptp::ptp_buttons(button))
}

/// The last record of a contact is the one that counts, and a contact without a
/// record has none.
pub proof fn last_record_counts(fingers: Seq<TrackpadFinger>, i: int, id: int)
    ensures
        is_last_of(fingers, i, id) ==> ptp::latest(fingers, id) == Some(fingers[i]),
        lacks(fingers, id) ==> ptp::latest(fingers, id) is None,
    decreases fingers.len(),
{
    if fingers.len() > 0 {
        let before = fingers.drop_last();
        let last = fingers.len() - 1;
        assert(fingers[last] == fingers.last());
        last_record_counts(before, i, id);
        if is_last_of(fingers, i, id) && i < last {
            assert forall|j: int| i < j < before.len() implies (#[trigger] before[j]).id != id by {
                assert(fingers[j].id != id);
            }
            assert(is_last_of(before, i, id));
            assert(fingers[last].id != id);
        }
        if lacks(fingers, id) {
            assert forall|j: int| 0 <= j < before.len() implies (#[trigger] before[j]).id != id by {
                assert(fingers[j].id != id);
            }
            assert(fingers[last].id != id);
        }
    }
}

/// A record that a report carries is among those that count.
proof fn lemma_carried(
    report: TrackpadPtpReport,
    records: Seq<TrackpadPtpFinger>,
    now: Instant,
    button: u8,
    record: TrackpadPtpFinger,
) -> (k: int)
    requires
        ptp::carries(report, records, now, button),
        records.len() <= 5,
        records.contains(record),
    ensures
        0 <= k < report.contact_count,
        report.fingers@[k] == record,
{
    let k = choose|k: int| 0 <= k < records.len() && records[k] == record;
    assert(ptp::padded(records)[k] == record);
    k
}

/// A finger with a record in the frame is reported as its last record says: with
/// its contact id, its tip switch, its confidence and its place on the panel.
pub proof fn finger_is_reported_as_it_is(
    report: TrackpadPtpReport,
    contacts: Seq<PtpContact>,
    fingers: Seq<TrackpadFinger>,
    dims: TrackpadDimensions,
    now: Instant,
    button: u8,
    i: int,
    id: int,
)
    requires
        is_frame_report(report, contacts, fingers, dims, now, button),
        0 <= id < 5,
        is_last_of(fingers, i, id),
    ensures
        shows(
            report,
            id,
            fingers[i].x,
            fingers[i].y,
            fingers[i].tip,
            fingers[i].confidence,
            dims,
        ),
{
    let records = ptp::frame_records(contacts, fingers, dims, 5);
    last_record_counts(fingers, i, id);
    ptp::lemma_frame_records_len(contacts, fingers, dims, 5);
    laws::contacts_are_reported(contacts, fingers, dims, 5, id);
    let own = ptp::contact_record(contacts[id], ptp::latest(fingers, id), id, dims);
    let k = lemma_carried(report, records, now, ptp::ptp_buttons(button), own->0);
    assert(report.fingers@[k].contact_id == id);
}

/// A finger that was on the surface and has no record in the frame is reported as
/// lifted, where it was last; one that was not is not reported.
pub proof fn lost_finger_is_lifted(
    report: TrackpadPtpReport,
    contacts: Seq<PtpContact>,
    fingers: Seq<TrackpadFinger>,
    dims: TrackpadDimensions,
    now: Instant,
    button: u8,
    id: int,
)
    requires
        is_frame_report(report, contacts, fingers, dims, now, button),
        0 <= id < 5,
        lacks(fingers, id),
    ensures
        if contacts[id].active {
            shows(report, id, contacts[id].x, contacts[id].y, false, true, dims)
        } else {
            hides(report, id)
        },
{
    let records = ptp::frame_records(contacts, fingers, dims, 5);
    last_record_counts(fingers, 0, id);
    ptp::lemma_frame_records_len(contacts, fingers, dims, 5);
    laws::contacts_are_reported(contacts, fingers, dims, 5, id);
    let own = ptp::contact_record(contacts[id], ptp::latest(fingers, id), id, dims);
    if contacts[id].active {
        let k = lemma_carried(report, records, now, ptp::ptp_buttons(button), own->0);
        assert(report.fingers@[k].contact_id == id);
    } else {
        assert forall|k: int| 0 <= k < report.contact_count implies (
        #[trigger] report.fingers@[k]).contact_id != id by {
            assert(ptp::padded(records)[k] == records[k]);
        }
    }
}

/// The records of a report that count are in ascending order of contact id, below
/// five; the others are blank.
pub proof fn frame_report_is_in_order(
    report: TrackpadPtpReport,
    contacts: Seq<PtpContact>,
    fingers: Seq<TrackpadFinger>,
    dims: TrackpadDimensions,
    now: Instant,
    button: u8,
    i: int,
    j: int,
)
    requires
        is_frame_report(report, contacts, fingers, dims, now, button),
        0 <= i < j < 5,
    ensures
        report.contact_count <= 5,
        j < report.contact_count ==> report.fingers@[i].contact_id < report.fingers@[j].contact_id
            < 5,
        j >= report.contact_count ==> report.fingers@[j] == (TrackpadPtpFinger {
            confidence: false,
            tip_switch: false,
            contact_id: 0,
            x: 0,
            y: 0,
        }),
{
    let records = ptp::frame_records(contacts, fingers, dims, 5);
    ptp::lemma_frame_records_len(contacts, fingers, dims, 5);
    assert(report.fingers@[i] == ptp::padded(records)[i]);
    assert(report.fingers@[j] == ptp::padded(records)[j]);
    if j < records.len() {
        laws::records_ascend(contacts, fingers, dims, 5, i, j);
    }
}

/// A report carries the hundreds of microseconds since startup, in 16 bits, and the
/// lowest three of the buttons.
pub proof fn report_carries_time_and_buttons(
    report: TrackpadPtpReport,
    records: Seq<TrackpadPtpFinger>,
    now: Instant,
    button: u8,
)
    requires
        ptp::carries(report, records, now, ptp::ptp_buttons(button)),
    ensures
        report.scan_time == now.ticks as int / 100 % 0x1_0000,
        report.button == button % 8,
{
    assert(button & 0b111 == button % 8) by (bit_vector);
}

/// A frame leaves of each contact what its last record says; a contact without a
/// record keeps its place and is no longer on the surface.
pub proof fn frame_updates_the_contacts(
    contacts: Seq<PtpContact>,
    fingers: Seq<TrackpadFinger>,
    i: int,
    id: int,
)
    requires
        contacts.len() == 5,
        0 <= id < 5,
    ensures
        ptp::contacts_after(contacts, fingers).len() == 5,
        is_last_of(fingers, i, id) ==> {
            let contact = ptp::contacts_after(contacts, fingers)[id];
            contact.x == fingers[i].x && contact.y == fingers[i].y && contact.active
                == fingers[i].tip
        },
        lacks(fingers, id) ==> {
            let contact = ptp::contacts_after(contacts, fingers)[id];
            contact.x == contacts[id].x && contact.y == contacts[id].y && !contact.active
        },
{
    last_record_counts(fingers, i, id);
}

/// A finger that touches in one frame and is missing in the next is lifted there
/// where it touched, and is not heard of again in the frame after that.
pub proof fn finger_lifts_once_where_it_touched(
    contacts: Seq<PtpContact>,
    first: Seq<TrackpadFinger>,
    second: Seq<TrackpadFinger>,
    third: Seq<TrackpadFinger>,
    on_second: TrackpadPtpReport,
    on_third: TrackpadPtpReport,
    dims: TrackpadDimensions,
    then: Instant,
    later: Instant,
    button: u8,
    i: int,
    id: int,
)
    requires
        contacts.len() == 5,
        0 <= id < 5,
        is_last_of(first, i, id) && first[i].tip,
        lacks(second, id),
        lacks(third, id),
        ({
            let touched = ptp::contacts_after(contacts, first);
            let lifted = ptp::contacts_after(touched, second);
            &&& is_frame_report(on_second, touched, second, dims, then, button)
            &&& is_frame_report(on_third, lifted, third, dims, later, button)
        }),
    ensures
        shows(on_second, id, first[i].x, first[i].y, false, true, dims),
        hides(on_third, id),
{
    let touched = ptp::contacts_after(contacts, first);
    let lifted = ptp::contacts_after(touched, second);
    frame_updates_the_contacts(contacts, first, i, id);
    frame_updates_the_contacts(touched, second, 0, id);
    lost_finger_is_lifted(on_second, touched, second, dims, then, button, id);
    lost_finger_is_lifted(on_third, lifted, third, dims, later, button, id);
}

/// A change of buttons shows every contact on the surface where it was last, and no
/// other.
pub proof fn button_report_shows_the_surface(
    report: TrackpadPtpReport,
    contacts: Seq<PtpContact>,
    dims: TrackpadDimensions,
    now: Instant,
    button: u8,
    id: int,
)
    requires
        is_button_report(report, contacts, dims, now, button),
        0 <= id < 5,
    ensures
        if contacts[id].active {
            shows(report, id, contacts[id].x, contacts[id].y, true, true, dims)
        } else {
            hides(report, id)
        },
{
    let records = ptp::live_records(contacts, dims, 5);
    ptp::lemma_live_records_len(contacts, dims, 5);
    laws::live_contacts_are_reported(contacts, dims, 5, id);
    if contacts[id].active {
        let own = ptp::placed(id, contacts[id].x, contacts[id].y, true, true, dims);
        let k = lemma_carried(report, records, now, ptp::ptp_buttons(button), own);
        assert(report.fingers@[k].contact_id == id);
    } else {
        assert forall|k: int| 0 <= k < report.contact_count implies (
        #[trigger] report.fingers@[k]).contact_id != id by {
            assert(ptp::padded(records)[k] == records[k]);
        }
    }
}

/// The records of a button report that count are in ascending order of contact id,
/// below five; the others are blank.
pub proof fn button_report_is_in_order(
    report: TrackpadPtpReport,
    contacts: Seq<PtpContact>,
    dims: TrackpadDimensions,
    now: Instant,
    button: u8,
    i: int,
    j: int,
)
    requires
        is_button_report(report, contacts, dims, now, button),
        0 <= i < j < 5,
    ensures
        report.contact_count <= 5,
        j < report.contact_count ==> report.fingers@[i].contact_id < report.fingers@[j].contact_id
            < 5,
        j >= report.contact_count ==> report.fingers@[j] == (TrackpadPtpFinger {
            confidence: false,
            tip_switch: false,
            contact_id: 0,
            x: 0,
            y: 0,
        }),
{
    let records = ptp::live_records(contacts, dims, 5);
    ptp::lemma_live_records_len(contacts, dims, 5);
    assert(report.fingers@[i] == ptp::padded(records)[i]);
    assert(report.fingers@[j] == ptp::padded(records)[j]);
    if j < records.len() {
        laws::live_records_ascend(contacts, dims, 5, i, j);
    }
}

/// A click while a finger touches shows the finger where it touches.
pub proof fn click_shows_the_touching_finger(
    contacts: Seq<PtpContact>,
    fingers: Seq<TrackpadFinger>,
    report: TrackpadPtpReport,
    dims: TrackpadDimensions,
    now: Instant,
    button: u8,
    i: int,
    id: int,
)
    requires
        contacts.len() == 5,
        0 <= id < 5,
        is_last_of(fingers, i, id) && fingers[i].tip,
        is_button_report(report, ptp::contacts_after(contacts, fingers), dims, now, button),
    ensures
        shows(report, id, fingers[i].x, fingers[i].y, true, true, dims),
{
    frame_updates_the_contacts(contacts, fingers, i, id);
    button_report_shows_the_surface(
        report,
        ptp::contacts_after(contacts, fingers),
        dims,
        now,
        button,
        id,
    );
}

/// A new decoder has no contact on the surface and counts no button as pressed.
pub proof fn new_decoder_has_no_contacts(state: PtpState, id: int)
    requires
        ptp::is_fresh(state),
        0 <= id < 5,
    ensures
        !state.contacts@[id].active,
        state.last_button_emitted == 0,
{
    assert(state.contacts@[id] == Seq::new(5, |i: int| ptp::untouched())[id]);
}

} // verus!
