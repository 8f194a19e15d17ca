//! Feature requests from the host.
use super::mode;
use super::mode::{TrackpadModes, MODE_LEGACY, MODE_PTP};
use super::report::TRACKPAD_MAX_CONTACTS;
use crate::bytes;
use vstd::prelude::*;

verus! {

/// A report that the host names in a request.
#[derive(Clone, Copy, Debug, PartialEq, Eq, Structural)]
pub enum ReportId {
    In(u8),
    Out(u8),
    Feature(u8),
}

/// The answer to a write.
#[derive(Clone, Copy, Debug, PartialEq, Eq, Structural)]
pub enum OutResponse {
    Accepted,
    Rejected,
}

/// The pre-certification status blob that Windows asks for. Linux only looks at
/// its shape.
pub const PTPHQA_BLOB: [u8; 256] = [
    0xfc, 0x28, 0xfe, 0x84, 0x40, 0xcb, 0x9a, 0x87, 0x0d, 0xbe, 0x57, 0x3c, 0xb6, 0x70, 0x09, 0x88,
    0x07, 0x97, 0x2d, 0x2b, 0xe3, 0x38, 0x34, 0xb6, 0x6c, 0xed, 0xb0, 0xf7, 0xe5, 0x9c, 0xf6, 0xc2,
    0x2e, 0x84, 0x1b, 0xe8, 0xb4, 0x51, 0x78, 0x43, 0x1f, 0x28, 0x4b, 0x7c, 0x2d, 0x53, 0xaf, 0xfc,
    0x47, 0x70, 0x1b, 0x59, 0x6f, 0x74, 0x43, 0xc4, 0xf3, 0x47, 0x18, 0x53, 0x1a, 0xa2, 0xa1, 0x71,
    0xc7, 0x95, 0x0e, 0x31, 0x55, 0x21, 0xd3, 0xb5, 0x1e, 0xe9, 0x0c, 0xba, 0xec, 0xb8, 0x89, 0x19,
    0x3e, 0xb3, 0xaf, 0x75, 0x81, 0x9d, 0x53, 0xb9, 0x41, 0x57, 0xf4, 0x6d, 0x39, 0x25, 0x29, 0x7c,
    0x87, 0xd9, 0xb4, 0x98, 0x45, 0x7d, 0xa7, 0x26, 0x9c, 0x65, 0x3b, 0x85, 0x68, 0x89, 0xd7, 0x3b,
    0xbd, 0xff, 0x14, 0x67, 0xf2, 0x2b, 0xf0, 0x2a, 0x41, 0x54, 0xf0, 0xfd, 0x2c, 0x66, 0x7c, 0xf8,
    0xc0, 0x8f, 0x33, 0x13, 0x03, 0xf1, 0xd3, 0xc1, 0x0b, 0x89, 0xd9, 0x1b, 0x62, 0xcd, 0x51, 0xb7,
    0x80, 0xb8, 0xaf, 0x3a, 0x10, 0xc1, 0x8a, 0x5b, 0xe8, 0x8a, 0x56, 0xf0, 0x8c, 0xaa, 0xfa, 0x35,
    0xe9, 0x42, 0xc4, 0xd8, 0x55, 0xc3, 0x38, 0xcc, 0x2b, 0x53, 0x5c, 0x69, 0x52, 0xd5, 0xc8, 0x73,
    0x02, 0x38, 0x7c, 0x73, 0xb6, 0x41, 0xe7, 0xff, 0x05, 0xd8, 0x2b, 0x79, 0x9a, 0xe2, 0x34, 0x60,
    0x8f, 0xa3, 0x32, 0x1f, 0x09, 0x78, 0x62, 0xbc, 0x80, 0xe3, 0x0f, 0xbd, 0x65, 0x20, 0x08, 0x13,
    0xc1, 0xe2, 0xee, 0x53, 0x2d, 0x86, 0x7e, 0xa7, 0x5a, 0xc5, 0xd3, 0x7d, 0x98, 0xbe, 0x31, 0x48,
    0x1f, 0xfb, 0xda, 0xaf, 0xa2, 0xa8, 0x6a, 0x89, 0xd6, 0xbf, 0xf2, 0xd3, 0x32, 0x2a, 0x9a, 0xe4,
    0xcf, 0x17, 0xb7, 0xb8, 0xf4, 0xe1, 0x33, 0x08, 0x24, 0x8b, 0xc4, 0x43, 0xa5, 0xe5, 0x24, 0xc2,
];

/// Device capabilities: pad type 2, a surface without a button of its own, in
/// the high nibble and the contact count maximum in the low one.
pub const DEVICE_CAPABILITIES: u8 = 0x25;

/// Answers the feature requests on one trackpad's interface.
#[derive(Clone, Copy, Debug)]
pub struct TrackpadRequestHandler {
    pub id: u8,
}

/// The host may write this report.
pub open spec fn writable(id: ReportId) -> bool {
    id == ReportId::Feature(0x06) || id == ReportId::Feature(0x08) || id == ReportId::Feature(0x09)
}

/// The mode slots after the handler of trackpad `handler` took a write of
/// report `id`.
pub open spec fn slots_after(slots: Seq<u8>, handler: u8, id: ReportId, data: Seq<u8>) -> Seq<u8> {
    if id == ReportId::Feature(0x08) && data.len() > 1 {
        slots.update(mode::slot_of(handler), mode::selected_mode(data[1]))
    } else {
        slots
    }
}

/// What the host reads of report `id` from a trackpad in `mode`, with the
/// report id in front; nothing for a report that the device does not have.
pub open spec fn readable(id: ReportId, mode: u8) -> Option<Seq<u8>> {
    match id {
        // Certification status.
        ReportId::Feature(0x0F) => Some(seq![0x0Fu8] + PTPHQA_BLOB@),
        ReportId::Feature(0x07) => Some(seq![0x07, DEVICE_CAPABILITIES]),
        // Input Mode.
        ReportId::Feature(0x08) => Some(seq![0x08, mode]),
        // Selective reporting: surface and buttons are both on.
        ReportId::Feature(0x09) => Some(seq![0x09, 0b11]),
        // Latency mode: normal.
        ReportId::Feature(0x06) => Some(seq![0x06, 0]),
        _ => None,
    }
}

/// The answer to a write of report `id`.
pub open spec fn response_to(id: ReportId) -> OutResponse {
    if writable(id) {
        OutResponse::Accepted
    } else {
        OutResponse::Rejected
    }
}

/// What a read does to the buffer: `reply` goes to its front, and its length is
/// returned, if there is a reply and the buffer has room for it.
pub open spec fn replies(
    reply: Option<Seq<u8>>,
    before: Seq<u8>,
    after: Seq<u8>,
    len: Option<usize>,
) -> bool {
    match reply {
        Some(bytes) if bytes.len() <= before.len() => {
            &&& len == Some(bytes.len() as usize)
            &&& after == bytes::overlaid(before, bytes)
        },
        _ => len is None && after == before,
    }
}

impl TrackpadRequestHandler {
    /// The handler for the trackpad with this id.
    pub fn new(id: u8) -> (handler: Self)
        ensures
            handler.id == id,
    {
        Self { id }
    }

    /// Handles a write of report `id`. `data` starts with the report id, so the
    /// Input Mode value is its second byte; a write without one is accepted and
    /// changes nothing. Latency mode and selective reporting are accepted and
    /// ignored. Everything else is rejected, so that a host that probes for an
    /// extension sees that it is not there.
    pub fn set_report(
        &mut self,
        id: ReportId,
        data: &[u8],
        modes: &mut TrackpadModes,
    ) -> (response: OutResponse)
        ensures
            *final(self) == *old(self),
            response == response_to(id),
            final(modes).slots@ == slots_after(old(modes).slots@, old(self).id, id, data@),
    {
        match id {
            ReportId::Feature(0x08) => {
                if data.len() > 1 {
                    let new_mode: u8 = if data[1] == MODE_PTP {
                        MODE_PTP
                    } else {
                        MODE_LEGACY
                    };
                    modes.store(self.id, new_mode);
                }
                OutResponse::Accepted
            },
            ReportId::Feature(0x06) => OutResponse::Accepted,
            ReportId::Feature(0x09) => OutResponse::Accepted,
            _ => OutResponse::Rejected,
        }
    }

    /// Handles a read of report `id` into `buf` and returns the length of the
    /// answer; nothing if there is no such report or `buf` is too small for it.
    pub fn get_report(&self, id: ReportId, buf: &mut [u8], modes: &TrackpadModes) -> (len: Option<
        usize,
    >)
        ensures
            replies(readable(id, modes.mode_of(self.id)), old(buf)@, final(buf)@, len),
    {
        if let ReportId::Feature(0x0F) = id {
            if buf.len() < 257 {
                return None;
            }
            let ghost before = buf@;
            let p: usize = bytes::put(buf, 0, 0x0F);
            let p: usize = bytes::put_all(buf, p, PTPHQA_BLOB.as_slice());
            assert(buf@ =~= bytes::overlaid(before, seq![0x0Fu8] + PTPHQA_BLOB@));
            return Some(p);
        }
        assert((2u8 << 4u8) | (5u8 & 0x0Fu8) == 0x25u8) by (bit_vector);
        let (rid, value): (u8, u8) = match id {
            ReportId::Feature(0x07) => (0x07, (2u8 << 4u8) | (TRACKPAD_MAX_CONTACTS & 0x0F)),
            ReportId::Feature(0x08) => (0x08, modes.load(self.id)),
            ReportId::Feature(0x09) => (0x09, 0b11),
            ReportId::Feature(0x06) => (0x06, 0),
            _ => return None,
        };
        if buf.len() < 2 {
            return None;
        }
        let ghost before = buf@;
        buf[0] = rid;
        buf[1] = value;
        assert(buf@ =~= bytes::overlaid(before, seq![rid, value]));
        Some(2)
    }
}

/// A host that selects a mode reads the mode it selected: a write of Input Mode
/// followed by a read of it gives the selected mode back.
pub proof fn input_mode_reads_back(before: TrackpadModes, after: TrackpadModes, id: u8, value: u8)
    requires
        after.slots@ == slots_after(
            before.slots@,
            id,
            ReportId::Feature(0x08),
            seq![0x08, value],
        ),
    ensures
        readable(ReportId::Feature(0x08), after.mode_of(id)) == Some(
            seq![0x08, mode::selected_mode(value)],
        ),
{
    assert(after.slots@[mode::slot_of(id)] == mode::selected_mode(value));
}

/// A write on one trackpad's interface leaves the mode of a trackpad in another
/// slot alone.
pub proof fn modes_are_independent(
    before: TrackpadModes,
    after: TrackpadModes,
    id: u8,
    other: u8,
    report: ReportId,
    data: Seq<u8>,
)
    requires
        mode::slot_of(id) != mode::slot_of(other),
        after.slots@ == slots_after(before.slots@, id, report, data),
    ensures
        after.mode_of(other) == before.mode_of(other),
{
}

/// A write that is rejected changes no mode.
pub proof fn rejected_writes_change_nothing(
    before: TrackpadModes,
    after: TrackpadModes,
    id: u8,
    report: ReportId,
    data: Seq<u8>,
)
    requires
        !writable(report),
        after.slots@ == slots_after(before.slots@, id, report, data),
    ensures
        after.slots@ == before.slots@,
{
}

/// Whatever the host writes, every slot holds one of the two modes.
pub proof fn modes_stay_valid(
    before: TrackpadModes,
    after: TrackpadModes,
    id: u8,
    report: ReportId,
    data: Seq<u8>,
)
    requires
        before.wf(),
        after.slots@ == slots_after(before.slots@, id, report, data),
    ensures
        after.wf(),
{
    assert forall|i: int| 0 <= i < mode::MAX_TRACKPADS implies #[trigger] after.slots@[i]
        == MODE_LEGACY || after.slots@[i] == MODE_PTP by {
        assert(before.slots@[i] == MODE_LEGACY || before.slots@[i] == MODE_PTP);
    }
}

/// Every answer starts with the id of the report that was asked for, and takes
/// two bytes, or 257 for the certification status.
pub proof fn answers_name_their_report(number: u8, mode: u8)
    ensures
        readable(ReportId::Feature(number), mode) matches Some(reply) ==> reply[0] == number
            && reply.len() == (if number == 0x0F {
            257nat
        } else {
            2
        }),
{
}

/// What the host may write it may also read.
pub proof fn writable_reports_are_readable(report: ReportId, mode: u8)
    ensures
        writable(report) ==> readable(report, mode) is Some,
{
}

/// The feature reports that a host can read, byte by byte, and no other: the
/// certification status, the capabilities with pad type 2 and five contacts, the
/// input mode, both switches on, and normal latency.
pub proof fn host_reads_the_features(number: u8, mode: u8, i: int)
    ensures
        readable(ReportId::Feature(0x0F), mode) matches Some(reply) && reply.len() == 257
            && reply[0] == 0x0F && (0 <= i < 256 ==> reply[i + 1] == PTPHQA_BLOB@[i]),
        readable(ReportId::Feature(0x07), mode) == Some(seq![0x07u8, 0x25]),
        readable(ReportId::Feature(0x08), mode) == Some(seq![0x08u8, mode]),
        readable(ReportId::Feature(0x09), mode) == Some(seq![0x09u8, 3]),
        readable(ReportId::Feature(0x06), mode) == Some(seq![0x06u8, 0]),
        number < 6 || 9 < number < 0x0F || number > 0x0F ==> readable(
            ReportId::Feature(number),
            mode,
        ) is None,
        readable(ReportId::In(number), mode) is None,
        readable(ReportId::Out(number), mode) is None,
{
}

/// A host may write the latency mode, the input mode and the two switches, and
/// nothing else.
pub proof fn host_writes_three_features(number: u8)
    ensures
        writable(ReportId::Feature(number)) <==> number == 6 || number == 8 || number == 9,
        !writable(ReportId::In(number)),
        !writable(ReportId::Out(number)),
        response_to(ReportId::Feature(number)) is Accepted <==> number == 6 || number == 8 || number
            == 9,
        response_to(ReportId::In(number)) is Rejected,
        response_to(ReportId::Out(number)) is Rejected,
{
}

/// The second byte of a written input mode selects the mode of the trackpad that it
/// was written to: the touchpad if it is 3, the mouse otherwise. Other reports and
/// writes without a second byte select nothing.
pub proof fn input_mode_selects_the_mode(
    before: TrackpadModes,
    after: TrackpadModes,
    id: u8,
    report: ReportId,
    data: Seq<u8>,
    i: int,
)
    requires
        after.slots@ == slots_after(before.slots@, id, report, data),
        0 <= i < 4,
    ensures
        after.slots@[i] == (if report == ReportId::Feature(8) && data.len() >= 2 && (i == id || i
            == 3 && id > 3) {
            if data[1] == 3 {
                3u8
            } else {
                0
            }
        } else {
            before.slots@[i]
        }),
{
}

/// A reply that fits is put to the front of the buffer, and no byte behind it changes; the
/// length is that of the reply. Without a reply, or without room for it, nothing is
/// returned and nothing is written.
pub proof fn replies_fill_the_front(
    reply: Seq<u8>,
    before: Seq<u8>,
    after: Seq<u8>,
    len: Option<usize>,
    i: int,
)
    requires
        0 <= i < before.len() <= usize::MAX,
    ensures
        replies(Some(reply), before, after, len) && reply.len() <= before.len() ==> {
            &&& len matches Some(n) && n == reply.len()
            &&& after.len() == before.len()
            &&& i < reply.len() ==> after[i] == reply[i]
            &&& i >= reply.len() ==> after[i] == before[i]
        },
        replies(Some(reply), before, after, len) && reply.len() > before.len() ==> len is None
            && after == before,
        replies(None, before, after, len) ==> len is None && after == before,
{
}

/// The certification status is the blob that hosts know: no byte of it is changed and no
/// two are exchanged.
pub proof fn certification_status_is_whole()
    ensures
        bytes::checksum(PTPHQA_BLOB@, 256) == 4332247,
{
    let blob = PTPHQA_BLOB@;
    assert(bytes::checksum(blob, 0) == 0);
    assert(bytes::checksum(blob, 16) == 15257) by {
        reveal_with_fuel(bytes::checksum, 17);
    }
    assert(bytes::checksum(blob, 32) == 77057) by {
        reveal_with_fuel(bytes::checksum, 17);
    }
    assert(bytes::checksum(blob, 48) == 147254) by {
        reveal_with_fuel(bytes::checksum, 17);
    }
    assert(bytes::checksum(blob, 64) == 242516) by {
        reveal_with_fuel(bytes::checksum, 17);
    }
    assert(bytes::checksum(blob, 80) == 385558) by {
        reveal_with_fuel(bytes::checksum, 17);
    }
    assert(bytes::checksum(blob, 96) == 548004) by {
        reveal_with_fuel(bytes::checksum, 17);
    }
    assert(bytes::checksum(blob, 112) == 760899) by {
        reveal_with_fuel(bytes::checksum, 17);
    }
    assert(bytes::checksum(blob, 128) == 1037411) by {
        reveal_with_fuel(bytes::checksum, 17);
    }
    assert(bytes::checksum(blob, 144) == 1312603) by {
        reveal_with_fuel(bytes::checksum, 17);
    }
    assert(bytes::checksum(blob, 160) == 1662928) by {
        reveal_with_fuel(bytes::checksum, 17);
    }
    assert(bytes::checksum(blob, 176) == 2030181) by {
        reveal_with_fuel(bytes::checksum, 17);
    }
    assert(bytes::checksum(blob, 192) == 2389664) by {
        reveal_with_fuel(bytes::checksum, 17);
    }
    assert(bytes::checksum(blob, 208) == 2693434) by {
        reveal_with_fuel(bytes::checksum, 17);
    }
    assert(bytes::checksum(blob, 224) == 3189480) by {
        reveal_with_fuel(bytes::checksum, 17);
    }
    assert(bytes::checksum(blob, 240) == 3789169) by {
        reveal_with_fuel(bytes::checksum, 17);
    }
    assert(bytes::checksum(blob, 256) == 4332247) by {
        reveal_with_fuel(bytes::checksum, 17);
    }
}

} // verus!
