//! Precision-touchpad decoder: absolute multi-finger reports.
use super::params::{TrackpadDimensions, TrackpadParams};
use super::report;
use super::report::{TrackpadPtpFinger, TrackpadPtpReport, TrackpadReport, TrackpadReports};
use crate::event::input::{TrackpadEvent, TrackpadFinger};
use crate::math;
use crate::time::{Instant, TICK_HZ};
use vstd::prelude::*;

verus! {

/// Tracking state of one contact. An inactive contact has no live finger and no
/// lift left to report.
#[derive(Clone, Copy, Debug, PartialEq, Eq, Structural)]
pub struct PtpContact {
    pub x: u16,
    pub y: u16,
    pub active: bool,
}

/// State of the touchpad decoder.
#[derive(Clone, Copy, Debug)]
pub struct PtpState {
    /// Tracking state, indexed by contact id.
    pub contacts: [PtpContact; 5],
    /// The buttons of the last report.
    pub last_button_emitted: u8,
}

/// A contact that was never touched.
pub open spec fn untouched() -> PtpContact {
    PtpContact { x: 0, y: 0, active: false }
}

/// A decoder that has seen nothing.
pub open spec fn is_fresh(state: PtpState) -> bool {
    &&& state.contacts@ == Seq::new(5, |i: int| untouched())
    &&& state.last_button_emitted == 0
}

/// The last record of contact `id` in a frame: a later record overrides an
/// earlier one.
pub open spec fn latest(fingers: Seq<TrackpadFinger>, id: int) -> Option<TrackpadFinger>
    decreases fingers.len(),
{
    if fingers.len() == 0 {
        None
    } else if fingers.last().id == id {
        Some(fingers.last())
    } else {
        latest(fingers.drop_last(), id)
    }
}

/// The finger record of contact `id` at (`x`, `y`), within the panel.
pub open spec fn placed(
    id: int,
    x: u16,
    y: u16,
    confidence: bool,
    tip_switch: bool,
    dims: TrackpadDimensions,
) -> TrackpadPtpFinger {
    TrackpadPtpFinger {
        confidence,
        tip_switch,
        contact_id: id as u8,
        x: math::lesser(x as int, dims.logical_max_x as int) as u16,
        y: math::lesser(y as int, dims.logical_max_y as int) as u16,
    }
}

/// What a frame reports of contact `id`: its record if it has one; otherwise,
/// if it was active, a lift at its last known position.
pub open spec fn contact_record(
    contact: PtpContact,
    finger: Option<TrackpadFinger>,
    id: int,
    dims: TrackpadDimensions,
) -> Option<TrackpadPtpFinger> {
    match finger {
        Some(f) => Some(placed(id, f.x, f.y, f.confidence, f.tip, dims)),
        None => if contact.active {
            Some(placed(id, contact.x, contact.y, true, false, dims))
        } else {
            None
        },
    }
}

/// Contact `id` after a frame.
pub open spec fn contact_after(contact: PtpContact, finger: Option<TrackpadFinger>) -> PtpContact {
    match finger {
        Some(f) => PtpContact { x: f.x, y: f.y, active: f.tip },
        None => PtpContact { active: false, ..contact },
    }
}

/// What a frame reports of the contacts below `end`, by ascending id.
pub open spec fn frame_records(
    contacts: Seq<PtpContact>,
    fingers: Seq<TrackpadFinger>,
    dims: TrackpadDimensions,
    end: int,
) -> Seq<TrackpadPtpFinger>
    decreases end,
{
    if end <= 0 {
        Seq::empty()
    } else {
        let before = frame_records(contacts, fingers, dims, end - 1);
        match contact_record(contacts[end - 1], latest(fingers, end - 1), end - 1, dims) {
            Some(record) => before.push(record),
            None => before,
        }
    }
}

/// The active contacts below `end` at their last known positions, by ascending
/// id.
pub open spec fn live_records(
    contacts: Seq<PtpContact>,
    dims: TrackpadDimensions,
    end: int,
) -> Seq<TrackpadPtpFinger>
    decreases end,
{
    if end <= 0 {
        Seq::empty()
    } else {
        let before = live_records(contacts, dims, end - 1);
        let contact = contacts[end - 1];
        if contact.active {
            before.push(placed(end - 1, contact.x, contact.y, true, true, dims))
        } else {
            before
        }
    }
}

/// `records`, filled up with blank ones.
pub open spec fn padded(records: Seq<TrackpadPtpFinger>) -> Seq<TrackpadPtpFinger> {
    Seq::new(
        5,
        |i: int|
            if i < records.len() {
                records[i]
            } else {
                report::blank_finger()
            },
    )
}

/// The 100-microsecond clock at `now`, which wraps at 16 bits.
pub open spec fn scan_clock(now: Instant) -> int {
    (now.ticks * 1_000_000 / (TICK_HZ as int)) / 100 % 0x1_0000
}

/// `report` carries exactly `records`, the scan time of `now` and `button`.
pub open spec fn carries(
    report: TrackpadPtpReport,
    records: Seq<TrackpadPtpFinger>,
    now: Instant,
    button: u8,
) -> bool {
    &&& report.fingers@ == padded(records)
    &&& report.contact_count == records.len()
    &&& report.scan_time == scan_clock(now)
    &&& report.button == button
}

/// The contacts after a frame.
pub open spec fn contacts_after(
    contacts: Seq<PtpContact>,
    fingers: Seq<TrackpadFinger>,
) -> Seq<PtpContact> {
    Seq::new(contacts.len(), |i: int| contact_after(contacts[i], latest(fingers, i)))
}

/// The touchpad reports buttons 1 to 3.
pub open spec fn ptp_buttons(button: u8) -> u8 {
    button & 0b111
}

/// The 100-microsecond scan time at `now`.
pub fn scan_time_at(now: Instant) -> (time: u16)
    ensures
        time == scan_clock(now),
{
    let hundreds: u64 = now.as_micros() / 100;
    assert((hundreds & 0xFFFF) == hundreds % 0x1_0000) by (bit_vector);
    (hundreds & 0xFFFF) as u16
}

/// The last record of contact `id`.
fn find_latest(fingers: &[TrackpadFinger], id: usize) -> (finger: Option<TrackpadFinger>)
    ensures
        finger == latest(fingers@, id as int),
{
    let mut i: usize = fingers.len();
    assert(fingers@.take(i as int) == fingers@);
    while i > 0
        invariant
            i <= fingers@.len(),
            latest(fingers@, id as int) == latest(fingers@.take(i as int), id as int),
        decreases i,
    {
        i = i - 1;
        assert(fingers@.take(i + 1).drop_last() == fingers@.take(i as int));
        assert(fingers@.take(i + 1).last() == fingers@[i as int]);
        if fingers[i].id as usize == id {
            return Some(fingers[i]);
        }
    }
    None
}

/// The lesser of a coordinate and its logical maximum.
fn within(value: u16, max: u16) -> (clamped: u16)
    ensures
        clamped == math::lesser(value as int, max as int),
{
    if value <= max {
        value
    } else {
        max
    }
}

/// The finger record of contact `id` at (`x`, `y`); see [`placed`].
fn place(
    id: usize,
    x: u16,
    y: u16,
    confidence: bool,
    tip_switch: bool,
    dims: &TrackpadDimensions,
) -> (record: TrackpadPtpFinger)
    requires
        id < 5,
    ensures
        record == placed(id as int, x, y, confidence, tip_switch, *dims),
{
    TrackpadPtpFinger {
        confidence,
        tip_switch,
        contact_id: id as u8,
        x: within(x, dims.logical_max_x),
        y: within(y, dims.logical_max_y),
    }
}

/// A frame reports at most one record per contact.
pub proof fn lemma_frame_records_len(
    contacts: Seq<PtpContact>,
    fingers: Seq<TrackpadFinger>,
    dims: TrackpadDimensions,
    end: int,
)
    requires
        0 <= end,
    ensures
        frame_records(contacts, fingers, dims, end).len() <= end,
    decreases end,
{
    if end > 0 {
        lemma_frame_records_len(contacts, fingers, dims, end - 1);
    }
}

/// There is at most one live record per contact.
pub proof fn lemma_live_records_len(contacts: Seq<PtpContact>, dims: TrackpadDimensions, end: int)
    requires
        0 <= end,
    ensures
        live_records(contacts, dims, end).len() <= end,
    decreases end,
{
    if end > 0 {
        lemma_live_records_len(contacts, dims, end - 1);
    }
}

impl Default for PtpState {
    /// A decoder that has seen nothing.
    fn default() -> (state: Self)
        ensures
            is_fresh(state),
    {
        let none = PtpContact { x: 0, y: 0, active: false };
        let contacts = [none, none, none, none, none];
        assert(contacts@ =~= Seq::new(5, |i: int| untouched()));
        Self { contacts, last_button_emitted: 0 }
    }
}

impl PtpState {
    /// Decodes one frame into one report, which is pushed to `out`. Bits 0 to 2
    /// of `button` are the buttons.
    pub fn process(
        &mut self,
        event: &TrackpadEvent,
        params: &TrackpadParams,
        now: Instant,
        button: u8,
        out: &mut TrackpadReports,
    )
        ensures
            final(self).contacts@ == contacts_after(old(self).contacts@, event.fingers@),
            final(self).last_button_emitted == ptp_buttons(button),
            exists|r: TrackpadPtpReport|
                {
                    &&& #[trigger] carries(
                        r,
                        frame_records(old(self).contacts@, event.fingers@, params.dims, 5),
                        now,
                        ptp_buttons(button),
                    )
                    &&& final(out)@ == report::enqueued(old(out)@, seq![TrackpadReport::Ptp(r)])
                },
    {
        let pressed: u8 = button & 0b111;
        let fingers = event.fingers.as_slice();
        let mut report = TrackpadPtpReport::default();
        report.scan_time = scan_time_at(now);
        report.button = pressed;
        let mut next: usize = 0;
        let mut id: usize = 0;
        let ghost contacts = self.contacts@;
        assert(report.fingers@ =~= padded(frame_records(contacts, fingers@, params.dims, 0)));
        while id < 5
            invariant
                id <= 5,
                next <= id,
                fingers@ == event.fingers@,
                contacts == old(self).contacts@,
                contacts.len() == 5,
                next == frame_records(contacts, fingers@, params.dims, id as int).len(),
                report.fingers@ == padded(
                    frame_records(contacts, fingers@, params.dims, id as int),
                ),
                report.scan_time == scan_clock(now),
                report.button == pressed,
                self.contacts@.len() == 5,
                forall|i: int| id <= i < 5 ==> self.contacts@[i] == contacts[i],
                forall|i: int|
                    0 <= i < id ==> #[trigger] self.contacts@[i] == contact_after(
                        contacts[i],
                        latest(fingers@, i),
                    ),
            decreases 5 - id,
        {
            let contact = self.contacts[id];
            let ghost before = frame_records(contacts, fingers@, params.dims, id as int);
            let record: Option<TrackpadPtpFinger> = match find_latest(fingers, id) {
                Some(f) => {
                    self.contacts[id] = PtpContact { x: f.x, y: f.y, active: f.tip };
                    Some(place(id, f.x, f.y, f.confidence, f.tip, &params.dims))
                },
                None => {
                    self.contacts[id] = PtpContact { x: contact.x, y: contact.y, active: false };
                    if contact.active {
                        Some(place(id, contact.x, contact.y, true, false, &params.dims))
                    } else {
                        None
                    }
                },
            };
            if let Some(record) = record {
                report.fingers[next] = record;
                next = next + 1;
                assert(report.fingers@ =~= padded(before.push(record)));
            }
            id = id + 1;
        }
        report.contact_count = next as u8;
        self.last_button_emitted = pressed;
        assert(self.contacts@ =~= contacts_after(contacts, fingers@));
        assert(carries(
            report,
            frame_records(old(self).contacts@, event.fingers@, params.dims, 5),
            now,
            ptp_buttons(button),
        ));
        out.push(TrackpadReport::Ptp(report));
    }

    /// Surfaces a change of buttons between two frames. The host wants the
    /// whole contact set in every report, so the live contacts are repeated at
    /// their last known positions. Nothing is sent when the buttons are those
    /// of the last report.
    pub fn process_button_event(
        &mut self,
        params: &TrackpadParams,
        now: Instant,
        button: u8,
        out: &mut TrackpadReports,
    )
        ensures
            final(self).contacts@ == old(self).contacts@,
            final(self).last_button_emitted == ptp_buttons(button),
            ptp_buttons(button) == old(self).last_button_emitted ==> final(out)@ == old(out)@,
            ptp_buttons(button) != old(self).last_button_emitted ==> exists|r: TrackpadPtpReport|
                {
                    &&& #[trigger] carries(
                        r,
                        live_records(old(self).contacts@, params.dims, 5),
                        now,
                        ptp_buttons(button),
                    )
                    &&& final(out)@ == report::enqueued(old(out)@, seq![TrackpadReport::Ptp(r)])
                },
    {
        let pressed: u8 = button & 0b111;
        if pressed == self.last_button_emitted {
            return;
        }
        let mut report = TrackpadPtpReport::default();
        report.scan_time = scan_time_at(now);
        report.button = pressed;
        let mut next: usize = 0;
        let mut id: usize = 0;
        assert(report.fingers@ =~= padded(live_records(self.contacts@, params.dims, 0)));
        while id < 5
            invariant
                id <= 5,
                next <= id,
                self.contacts@.len() == 5,
                self.contacts == old(self).contacts,
                next == live_records(self.contacts@, params.dims, id as int).len(),
                report.fingers@ == padded(live_records(self.contacts@, params.dims, id as int)),
                report.scan_time == scan_clock(now),
                report.button == pressed,
            decreases 5 - id,
        {
            let contact = self.contacts[id];
            let ghost before = live_records(self.contacts@, params.dims, id as int);
            if contact.active {
                let record = place(id, contact.x, contact.y, true, true, &params.dims);
                report.fingers[next] = record;
                next = next + 1;
                assert(report.fingers@ =~= padded(before.push(record)));
            }
            id = id + 1;
        }
        report.contact_count = next as u8;
        self.last_button_emitted = pressed;
        assert(carries(report, live_records(self.contacts@, params.dims, 5), now, ptp_buttons(button)));
        out.push(TrackpadReport::Ptp(report));
    }
}

} // verus!
