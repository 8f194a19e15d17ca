//! Reports and their wire format.
use crate::bytes;
use vstd::prelude::*;

verus! {

/// Most contacts in one touchpad report; also the value of the descriptor's
/// Contact Count Maximum.
pub const TRACKPAD_MAX_CONTACTS: u8 = 5;

/// Legacy-mouse report: buttons, then relative X and Y.
#[derive(Clone, Copy, Debug, PartialEq, Eq, Structural)]
pub struct TrackpadLegacyMouseReport {
    pub buttons: u8,
    pub x: i8,
    pub y: i8,
}

/// One finger record of a touchpad report.
#[derive(Clone, Copy, Debug, PartialEq, Eq, Structural)]
pub struct TrackpadPtpFinger {
    pub confidence: bool,
    pub tip_switch: bool,
    pub contact_id: u8,
    pub x: u16,
    pub y: u16,
}

/// Touchpad report: the finger records, the scan time, how many of the records
/// count, and the buttons.
#[derive(Clone, Copy, Debug, PartialEq, Eq)]
pub struct TrackpadPtpReport {
    pub fingers: [TrackpadPtpFinger; 5],
    pub scan_time: u16,
    pub contact_count: u8,
    pub button: u8,
}

/// A report of the trackpad interface.
#[derive(Clone, Copy, Debug, PartialEq, Eq)]
pub enum TrackpadReport {
    LegacyMouse(TrackpadLegacyMouseReport),
    Ptp(TrackpadPtpReport),
}

/// A finger record with nothing set.
pub open spec fn blank_finger() -> TrackpadPtpFinger {
    TrackpadPtpFinger { confidence: false, tip_switch: false, contact_id: 0, x: 0, y: 0 }
}

impl Default for TrackpadLegacyMouseReport {
    /// No button and no motion.
    fn default() -> (report: Self)
        ensures
            report == (TrackpadLegacyMouseReport { buttons: 0, x: 0, y: 0 }),
    {
        Self { buttons: 0, x: 0, y: 0 }
    }
}

impl Default for TrackpadPtpFinger {
    /// A record with nothing set.
    fn default() -> (finger: Self)
        ensures
            finger == blank_finger(),
    {
        Self { confidence: false, tip_switch: false, contact_id: 0, x: 0, y: 0 }
    }
}

impl Default for TrackpadPtpReport {
    /// No contacts, no buttons, scan time zero.
    fn default() -> (report: Self)
        ensures
            report.fingers@ == Seq::new(5, |i: int| blank_finger()),
            report.scan_time == 0,
            report.contact_count == 0,
            report.button == 0,
    {
        let blank = TrackpadPtpFinger::default();
        let fingers = [blank, blank, blank, blank, blank];
        assert(fingers@ =~= Seq::new(5, |i: int| blank_finger()));
        Self { fingers, scan_time: 0, contact_count: 0, button: 0 }
    }
}

/// Most reports that one event produces: a tap is a press and a release.
pub const MAX_OUTPUTS: usize = 2;

/// The reports that an event produced, held in a `heapless::Vec` of capacity
/// [`MAX_OUTPUTS`].
#[verifier::external_body]
#[derive(Debug)]
pub struct TrackpadReports {
    reports: heapless::Vec<TrackpadReport, 2>,
}

/// The reports in `reports`, first to last.
pub uninterp spec fn queued_reports(reports: TrackpadReports) -> Seq<TrackpadReport>;

impl View for TrackpadReports {
    type V = Seq<TrackpadReport>;

    open spec fn view(&self) -> Seq<TrackpadReport> {
        queued_reports(*self)
    }
}

/// `heapless::Vec::new`: a vector without elements.
#[verifier::external_body]
fn heapless_new() -> (reports: TrackpadReports)
    ensures
        queued_reports(reports) == Seq::<TrackpadReport>::empty(),
{
    TrackpadReports { reports: heapless::Vec::new() }
}

/// `heapless::Vec::push`: appends `report` below the capacity, and hands it
/// back with the vector unchanged otherwise.
#[verifier::external_body]
fn heapless_push(reports: &mut TrackpadReports, report: TrackpadReport) -> (result: Result<
    (),
    TrackpadReport,
>)
    ensures
        queued_reports(*old(reports)).len() < MAX_OUTPUTS ==> {
            &&& result == Ok::<(), TrackpadReport>(())
            &&& queued_reports(*final(reports)) == queued_reports(*old(reports)).push(report)
        },
        queued_reports(*old(reports)).len() >= MAX_OUTPUTS ==> {
            &&& result == Err::<(), TrackpadReport>(report)
            &&& queued_reports(*final(reports)) == queued_reports(*old(reports))
        },
{
    reports.reports.push(report)
}

/// `heapless::Vec::as_slice`: the elements in order, never more than the
/// capacity.
#[verifier::external_body]
fn heapless_as_slice(reports: &TrackpadReports) -> (slice: &[TrackpadReport])
    ensures
        slice@ == queued_reports(*reports),
        slice@.len() <= MAX_OUTPUTS,
{
    reports.reports.as_slice()
}

/// `queue` after pushing each of `reports` in turn: what does not fit is
/// dropped.
pub open spec fn enqueued(queue: Seq<TrackpadReport>, reports: Seq<TrackpadReport>) -> Seq<
    TrackpadReport,
> {
    if queue.len() >= MAX_OUTPUTS {
        queue
    } else if queue.len() + reports.len() <= MAX_OUTPUTS {
        queue + reports
    } else {
        (queue + reports).take(MAX_OUTPUTS as int)
    }
}

impl TrackpadReports {
    /// No reports.
    pub fn new() -> (reports: Self)
        ensures
            reports@ == Seq::<TrackpadReport>::empty(),
    {
        heapless_new()
    }

    /// Appends `report` if there is room; drops it otherwise.
    pub fn push(&mut self, report: TrackpadReport)
        ensures
            final(self)@ == enqueued(old(self)@, seq![report]),
    {
        let _ = heapless_push(self, report);
        assert(old(self)@ + seq![report] =~= old(self)@.push(report));
    }

    /// The reports in order.
    pub fn as_slice(&self) -> (slice: &[TrackpadReport])
        ensures
            slice@ == self@,
            slice@.len() <= MAX_OUTPUTS,
    {
        heapless_as_slice(self)
    }
}

/// The buffer is too small for the report.
#[derive(Clone, Copy, Debug, PartialEq, Eq, Structural)]
pub struct BufferOverflow;

/// Bytes of one finger record on the wire: flags, contact id, X and Y.
pub const PTP_FINGER_BYTES: usize = 6;

/// Bytes of a touchpad report after the report id: the finger records, the scan
/// time, the contact count and the buttons.
pub const PTP_REPORT_PAYLOAD_BYTES: usize = 34;

/// Buffer size for the largest report of the interface, with its report id.
pub const TRACKPAD_WRITER_BUF: usize = 35;

/// The wire format of a mouse report: report id, buttons 1 to 3, X and Y.
pub open spec fn mouse_bytes(report: TrackpadLegacyMouseReport) -> Seq<u8> {
    seq![
        0x01,
        report.buttons & 0b111,
        bytes::signed_byte(report.x),
        bytes::signed_byte(report.y),
    ]
}

/// The flag byte of a finger record: confidence in bit 0, tip switch in bit 1.
pub open spec fn finger_flags(finger: TrackpadPtpFinger) -> u8 {
    match (finger.confidence, finger.tip_switch) {
        (false, false) => 0b00,
        (true, false) => 0b01,
        (false, true) => 0b10,
        (true, true) => 0b11,
    }
}

/// The wire format of a finger record.
pub open spec fn finger_bytes(finger: TrackpadPtpFinger) -> Seq<u8> {
    seq![finger_flags(finger), finger.contact_id & 0x7F] + bytes::le16(finger.x) + bytes::le16(
        finger.y,
    )
}

/// The wire format of the first `count` finger records.
pub open spec fn fingers_bytes(fingers: Seq<TrackpadPtpFinger>, count: int) -> Seq<u8>
    decreases count,
{
    if count <= 0 {
        Seq::empty()
    } else {
        fingers_bytes(fingers, count - 1) + finger_bytes(fingers[count - 1])
    }
}

/// The wire format of a touchpad report: report id, the five finger records,
/// scan time, contact count and buttons 1 to 3.
pub open spec fn ptp_bytes(report: TrackpadPtpReport) -> Seq<u8> {
    seq![0x05u8] + fingers_bytes(report.fingers@, 5) + bytes::le16(report.scan_time) + seq![
        report.contact_count,
        report.button & 0b111,
    ]
}

/// The wire format of a report.
pub open spec fn report_bytes(report: TrackpadReport) -> Seq<u8> {
    match report {
        TrackpadReport::LegacyMouse(r) => mouse_bytes(r),
        TrackpadReport::Ptp(r) => ptp_bytes(r),
    }
}

/// What serializing `bytes` into a buffer does: the front of the buffer is
/// overwritten and the length returned if they fit, and otherwise nothing is
/// written.
pub open spec fn written(
    before: Seq<u8>,
    after: Seq<u8>,
    bytes: Seq<u8>,
    result: Result<usize, BufferOverflow>,
) -> bool {
    if before.len() < bytes.len() {
        result == Err::<usize, BufferOverflow>(BufferOverflow) && after == before
    } else {
        result == Ok::<usize, BufferOverflow>(bytes.len() as usize) && after == bytes::overlaid(
            before,
            bytes,
        )
    }
}

/// Every finger record takes six bytes.
pub proof fn lemma_fingers_bytes_len(fingers: Seq<TrackpadPtpFinger>, count: int)
    requires
        0 <= count,
    ensures
        fingers_bytes(fingers, count).len() == count * PTP_FINGER_BYTES,
    decreases count,
{
    if count > 0 {
        lemma_fingers_bytes_len(fingers, count - 1);
    }
}

/// The flag byte of a finger record; see [`finger_flags`].
fn flags_of(finger: &TrackpadPtpFinger) -> (flags: u8)
    ensures
        flags == finger_flags(*finger),
{
    let confidence: u8 = if finger.confidence {
        0b01
    } else {
        0
    };
    let tip: u8 = if finger.tip_switch {
        0b10
    } else {
        0
    };
    assert(0u8 | 0 == 0 && 1u8 | 0 == 1 && 0u8 | 2 == 2 && 1u8 | 2 == 3) by (bit_vector);
    confidence | tip
}

impl TrackpadLegacyMouseReport {
    /// Writes the report to the front of `buf`.
    pub fn serialize(&self, buf: &mut [u8]) -> (result: Result<usize, BufferOverflow>)
        ensures
            written(old(buf)@, final(buf)@, mouse_bytes(*self), result),
    {
        if buf.len() < 4 {
            return Err(BufferOverflow);
        }
        let x: i8 = self.x;
        let y: i8 = self.y;
        assert(x as u8 == if x < 0 { x + 256 } else { x as int }) by (bit_vector);
        assert(y as u8 == if y < 0 { y + 256 } else { y as int }) by (bit_vector);
        buf[0] = 0x01;
        buf[1] = self.buttons & 0b0000_0111;
        buf[2] = x as u8;
        buf[3] = y as u8;
        assert(buf@ =~= bytes::overlaid(old(buf)@, mouse_bytes(*self)));
        Ok(4)
    }
}

impl TrackpadPtpReport {
    /// Writes the report to the front of `buf`.
    pub fn serialize(&self, buf: &mut [u8]) -> (result: Result<usize, BufferOverflow>)
        ensures
            written(old(buf)@, final(buf)@, ptp_bytes(*self), result),
    {
        proof {
            lemma_fingers_bytes_len(self.fingers@, 5);
        }
        if buf.len() < TRACKPAD_WRITER_BUF {
            return Err(BufferOverflow);
        }
        let ghost original = buf@;
        let ghost mut done: Seq<u8> = Seq::empty();
        assert(buf@ =~= bytes::overlaid(original, done));
        let mut p: usize = bytes::put(buf, 0, 0x05);
        proof {
            done = done.push(0x05);
            assert(done =~= seq![0x05u8] + fingers_bytes(self.fingers@, 0));
        }
        let mut i: usize = 0;
        while i < 5
            invariant
                i <= 5,
                p == 1 + 6 * i,
                original.len() >= TRACKPAD_WRITER_BUF,
                done.len() == p,
                done == seq![0x05u8] + fingers_bytes(self.fingers@, i as int),
                buf@ == bytes::overlaid(original, done),
            decreases 5 - i,
        {
            let f = &self.fingers[i];
            let ghost before = done;
            p = bytes::put(buf, p, flags_of(f));
            p = bytes::put(buf, p, f.contact_id & 0x7F);
            p = bytes::put(buf, p, (f.x % 256) as u8);
            p = bytes::put(buf, p, (f.x / 256) as u8);
            p = bytes::put(buf, p, (f.y % 256) as u8);
            p = bytes::put(buf, p, (f.y / 256) as u8);
            i = i + 1;
            proof {
                done = before.push(finger_flags(*f)).push(f.contact_id & 0x7F).push(
                    (f.x % 256) as u8,
                ).push((f.x / 256) as u8).push((f.y % 256) as u8).push((f.y / 256) as u8);
                assert(done =~= before + finger_bytes(*f));
                assert(done =~= seq![0x05u8] + fingers_bytes(self.fingers@, i as int));
            }
        }
        let ghost before = done;
        p = bytes::put(buf, p, (self.scan_time % 256) as u8);
        p = bytes::put(buf, p, (self.scan_time / 256) as u8);
        p = bytes::put(buf, p, self.contact_count);
        p = bytes::put(buf, p, self.button & 0b111);
        proof {
            done = before.push((self.scan_time % 256) as u8).push(
                (self.scan_time / 256) as u8,
            ).push(self.contact_count).push(self.button & 0b111);
            assert(done =~= ptp_bytes(*self));
        }
        Ok(p)
    }
}

impl TrackpadReport {
    /// Writes the report to the front of `buf`.
    pub fn serialize(&self, buf: &mut [u8]) -> (result: Result<usize, BufferOverflow>)
        ensures
            written(old(buf)@, final(buf)@, report_bytes(*self), result),
    {
        match self {
            TrackpadReport::LegacyMouse(r) => r.serialize(buf),
            TrackpadReport::Ptp(r) => r.serialize(buf),
        }
    }
}

/// A report starts with its id, takes 4 or 35 bytes, and fits the buffer of the
/// interface.
pub proof fn reports_fit_the_writer(report: TrackpadReport)
    ensures
        report_bytes(report).len() == (if report is Ptp {
            PTP_REPORT_PAYLOAD_BYTES + 1
        } else {
            4
        }),
        report_bytes(report).len() <= TRACKPAD_WRITER_BUF,
        report_bytes(report)[0] == (if report is Ptp {
            0x05u8
        } else {
            0x01
        }),
{
    if let TrackpadReport::Ptp(r) = report {
        lemma_fingers_bytes_len(r.fingers@, 5);
    }
}

/// Finger record `i` of a touchpad report stands at byte `1 + 6 * i`, and what
/// follows the five records is the scan time, the contact count and the
/// buttons.
pub proof fn finger_records_stand_in_order(report: TrackpadPtpReport, i: int)
    requires
        0 <= i < TRACKPAD_MAX_CONTACTS,
    ensures
        ptp_bytes(report).subrange(1 + 6 * i, 7 + 6 * i) == finger_bytes(report.fingers@[i]),
        ptp_bytes(report).subrange(31, 33) == bytes::le16(report.scan_time),
        ptp_bytes(report)[33] == report.contact_count,
        ptp_bytes(report)[34] == report.button & 0b111,
{
    lemma_fingers_bytes_len(report.fingers@, 5);
    lemma_finger_bytes_at(report.fingers@, 5, i);
    assert(ptp_bytes(report).subrange(1 + 6 * i, 7 + 6 * i) =~= fingers_bytes(
        report.fingers@,
        5,
    ).subrange(6 * i, 6 * i + 6));
    assert(ptp_bytes(report).subrange(31, 33) =~= bytes::le16(report.scan_time));
}

/// Record `i` stands behind the `i` records before it.
proof fn lemma_finger_bytes_at(fingers: Seq<TrackpadPtpFinger>, count: int, i: int)
    requires
        0 <= i < count,
    ensures
        fingers_bytes(fingers, count).subrange(6 * i, 6 * i + 6) == finger_bytes(fingers[i]),
    decreases count,
{
    lemma_fingers_bytes_len(fingers, count - 1);
    if i == count - 1 {
        assert(fingers_bytes(fingers, count).subrange(6 * i, 6 * i + 6) =~= finger_bytes(
            fingers[i],
        ));
    } else {
        lemma_finger_bytes_at(fingers, count - 1, i);
        assert(fingers_bytes(fingers, count).subrange(6 * i, 6 * i + 6) =~= fingers_bytes(
            fingers,
            count - 1,
        ).subrange(6 * i, 6 * i + 6));
    }
}

/// A mouse report on the wire: its id, buttons 1 to 3, and the two displacements as
/// signed bytes.
pub proof fn mouse_report_layout(report: TrackpadLegacyMouseReport)
    ensures
        mouse_bytes(report).len() == 4,
        mouse_bytes(report)[0] == 0x01,
        mouse_bytes(report)[1] == report.buttons % 8,
        mouse_bytes(report)[2] == report.x || mouse_bytes(report)[2] == report.x + 256,
        mouse_bytes(report)[3] == report.y || mouse_bytes(report)[3] == report.y + 256,
{
    let buttons = report.buttons;
    assert(buttons & 0b111 == buttons % 8) by (bit_vector);
}

/// A touchpad report on the wire: its id; for each finger the flags, with
/// confidence worth one and the tip switch two, the contact id in seven bits, and
/// the coordinates with their low bytes first; then the scan time with its low byte
/// first, the contact count, and buttons 1 to 3.
pub proof fn touchpad_report_layout(report: TrackpadPtpReport, i: int)
    requires
        0 <= i < 5,
    ensures
        ({
            let wire = ptp_bytes(report);
            let finger = report.fingers@[i];
            let at = 1 + 6 * i;
            &&& wire.len() == 35
            &&& wire[0] == 0x05
            &&& wire[at] == (if finger.confidence {
                1int
            } else {
                0
            }) + (if finger.tip_switch {
                2int
            } else {
                0
            })
            &&& wire[at + 1] == finger.contact_id % 128
            &&& wire[at + 2] + 256 * wire[at + 3] == finger.x
            &&& wire[at + 4] + 256 * wire[at + 5] == finger.y
            &&& wire[31] + 256 * wire[32] == report.scan_time
            &&& wire[33] == report.contact_count
            &&& wire[34] == report.button % 8
        }),
{
    let wire = ptp_bytes(report);
    let finger = report.fingers@[i];
    let own = wire.subrange(1 + 6 * i, 7 + 6 * i);
    let time = wire.subrange(31, 33);
    finger_records_stand_in_order(report, i);
    reports_fit_the_writer(TrackpadReport::Ptp(report));
    let id = finger.contact_id;
    let button = report.button;
    assert(id & 0x7F == id % 128 && button & 0b111 == button % 8) by (bit_vector);
    let at = 1 + 6 * i;
    assert(own[0] == wire[at] && own[1] == wire[at + 1] && own[2] == wire[at + 2] && own[3]
        == wire[at + 3] && own[4] == wire[at + 4] && own[5] == wire[at + 5]);
    assert(time[0] == wire[31] && time[1] == wire[32]);
}

/// Each kind of report has its own wire format.
pub proof fn reports_keep_their_kind(
    mouse: TrackpadLegacyMouseReport,
    touchpad: TrackpadPtpReport,
)
    ensures
        report_bytes(TrackpadReport::LegacyMouse(mouse)) == mouse_bytes(mouse),
        report_bytes(TrackpadReport::Ptp(touchpad)) == ptp_bytes(touchpad),
{
}

/// Serializing succeeds exactly if the buffer is large enough, tells the length, puts
/// the bytes to the front and leaves the rest; where it fails nothing is written.
pub proof fn serializing_fills_the_front(
    before: Seq<u8>,
    after: Seq<u8>,
    bytes: Seq<u8>,
    result: Result<usize, BufferOverflow>,
)
    requires
        written(before, after, bytes, result),
        before.len() <= usize::MAX,
    ensures
        result is Ok <==> bytes.len() <= before.len(),
        result matches Ok(len) ==> len == bytes.len() && after.len() == before.len() && after.take(
            len as int,
        ) == bytes && after.skip(len as int) == before.skip(len as int),
        result is Err ==> after == before,
{
    if bytes.len() <= before.len() {
        assert(after.take(bytes.len() as int) =~= bytes);
        assert(after.skip(bytes.len() as int) =~= before.skip(bytes.len() as int));
    }
}

/// What fits the queue is appended in order, and what does not is dropped from the
/// end.
pub proof fn queue_keeps_what_fits(queue: Seq<TrackpadReport>, reports: Seq<TrackpadReport>, i: int)
    requires
        queue.len() <= 2,
        0 <= i < enqueued(queue, reports).len(),
    ensures
        enqueued(queue, reports).len() == (if queue.len() + reports.len() <= 2 {
            queue.len() + reports.len()
        } else {
            2
        }),
        enqueued(queue, reports)[i] == (if i < queue.len() {
            queue[i]
        } else {
            reports[i - queue.len()]
        }),
{
}

} // verus!
