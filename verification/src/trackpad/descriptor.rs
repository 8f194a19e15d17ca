//! The HID report descriptor of the trackpad interface.
use crate::bytes;
use crate::trackpad::params::{TrackpadDimensions, TrackpadParams};
use crate::trackpad::report;
use crate::trackpad::report::{TrackpadLegacyMouseReport, TrackpadPtpReport};
use crate::trackpad::request;
use crate::trackpad::request::ReportId;
use vstd::prelude::*;
use vstd::slice::slice_subrange;

verus! {

/// Buffer size for the descriptor.
pub const TRACKPAD_DESC_BUF_SIZE: usize = 512;

/// The mouse collection, report id 1: three buttons, relative X and Y.
pub const MOUSE_COLLECTION: [u8; 50] = [
    0x05, 0x01,  // usage page: generic desktop
    0x09, 0x02,  // usage: mouse
    0xA1, 0x01,  // collection: application
    0x85, 0x01,  // report id 1
    0x09, 0x01,  // usage: pointer
    0xA1, 0x00,  // collection: physical
    0x05, 0x09,  // usage page: button
    0x19, 0x01, 0x29, 0x03,  // usages: buttons 1 to 3
    0x15, 0x00, 0x25, 0x01,  // logical range 0 to 1
    0x75, 0x01, 0x95, 0x03,  // three fields of one bit
    0x81, 0x02,  // input: data, variable, absolute
    0x95, 0x05, 0x81, 0x03,  // five bits of padding
    0x05, 0x01,  // usage page: generic desktop
    0x09, 0x30, 0x09, 0x31,  // usages: X, Y
    0x15, 0x81, 0x25, 0x7F,  // logical range -127 to 127
    0x75, 0x08, 0x95, 0x02,  // two fields of eight bits
    0x81, 0x06,  // input: data, variable, relative
    0xC0,  // end of the physical collection
    0xC0,  // end of the application collection
];

/// Opens the touchpad collection, report id 5.
pub const TOUCHPAD_OPEN: [u8; 8] = [0x05, 0x0D, 0x09, 0x05, 0xA1, 0x01, 0x85, 0x05];

/// The first finger, up to its logical range in X.
pub const FIRST_FINGER_HEAD: [u8; 34] = [
    0x09, 0x22, 0xA1, 0x02,  // usage: finger; collection: logical
    0x09, 0x47, 0x09, 0x42,  // usages: confidence, tip switch
    0x15, 0x00, 0x25, 0x01,  // logical range 0 to 1
    0x75, 0x01, 0x95, 0x02,  // two fields of one bit
    0x81, 0x02,  // input: data, variable, absolute
    0x95, 0x06, 0x81, 0x03,  // six bits of padding
    0x75, 0x08, 0x09, 0x51,  // eight bits; usage: contact id
    0x95, 0x01, 0x25, 0x7F,  // one field, logical maximum 127
    0x81, 0x02,  // input: data, variable, absolute
    0x05, 0x01,  // usage page: generic desktop
];

/// Sixteen bits in hundredths of a centimetre; usage: X; physical minimum 0.
pub const FIRST_FINGER_X: [u8; 10] = [
    0x75, 0x10, 0x55, 0x0E, 0x65, 0x11, 0x09, 0x30, 0x35, 0x00,
];

/// One field; input: data, variable, absolute.
pub const FIRST_FINGER_X_INPUT: [u8; 4] = [0x95, 0x01, 0x81, 0x02];

/// Usage: Y; input; end of a finger's collection.
pub const FINGER_Y_INPUT: [u8; 5] = [0x09, 0x31, 0x81, 0x02, 0xC0];

/// A further finger, up to its logical range in X.
pub const FINGER_HEAD: [u8; 38] = [
    0x05, 0x0D,  // usage page: digitizer
    0x09, 0x22, 0xA1, 0x02,  // usage: finger; collection: logical
    0x05, 0x0D,  // usage page: digitizer
    0x09, 0x47, 0x09, 0x42,  // usages: confidence, tip switch
    0x15, 0x00, 0x25, 0x01,  // logical range 0 to 1
    0x75, 0x01, 0x95, 0x02,  // two fields of one bit
    0x81, 0x02,  // input: data, variable, absolute
    0x95, 0x06, 0x81, 0x03,  // six bits of padding
    0x75, 0x08, 0x09, 0x51,  // eight bits; usage: contact id
    0x95, 0x01, 0x25, 0x7F,  // one field, logical maximum 127
    0x81, 0x02,  // input: data, variable, absolute
    0x05, 0x01,  // usage page: generic desktop
];

/// Sixteen bits; usage: X; input.
pub const FINGER_X_INPUT: [u8; 6] = [0x75, 0x10, 0x09, 0x30, 0x81, 0x02];

/// The end of the touchpad collection: scan time, contact count, buttons and
/// the feature reports that belong to it. Three buttons and the pad type of the
/// capabilities keep hosts from taking the surface for a clickpad.
pub const TOUCHPAD_TAIL: [u8; 105] = [
    0x05, 0x0D,  // usage page: digitizer
    0x55, 0x0C, 0x66, 0x01, 0x10,  // unit: 100 microseconds
    0x47, 0xFF, 0xFF, 0x00, 0x00,  // physical maximum 65535
    0x27, 0xFF, 0xFF, 0x00, 0x00,  // logical maximum 65535
    0x75, 0x10, 0x95, 0x01,  // one field of sixteen bits
    0x09, 0x56, 0x81, 0x02,  // usage: scan time; input
    0x09, 0x54, 0x25, 0x05,  // usage: contact count, at most 5
    0x95, 0x01, 0x75, 0x08, 0x81, 0x02,  // one field of eight bits; input
    0x55, 0x00, 0x65, 0x00,  // no unit
    0x05, 0x09, 0x19, 0x01, 0x29, 0x03,  // usages: buttons 1 to 3
    0x25, 0x01, 0x75, 0x01, 0x95, 0x03, 0x81, 0x02,  // three fields of one bit
    0x95, 0x05, 0x81, 0x03,  // five bits of padding
    0x05, 0x0D, 0x85, 0x07,  // report id 7: device capabilities
    0x09, 0x55, 0x09, 0x59,  // usages: contact count maximum, pad type
    0x75, 0x04, 0x95, 0x02, 0x25, 0x0F, 0xB1, 0x02,  // two fields of four bits
    0x85, 0x06, 0x09, 0x60,  // report id 6: latency mode
    0x75, 0x08, 0x95, 0x01, 0x25, 0x01, 0xB1, 0x02,  // one field of eight bits
    0x06, 0x00, 0xFF,  // usage page: vendor 0xFF00
    0x85, 0x0F,  // report id 15: certification status
    0x09, 0xC5,  // usage 0xC5
    0x15, 0x00, 0x26, 0xFF, 0x00,  // logical range 0 to 255
    0x75, 0x08, 0x96, 0x00, 0x01,  // 256 fields of eight bits
    0xB1, 0x02,  // feature: data, variable, absolute
    0xC0,  // end of the touchpad collection
];

/// The configuration collection: input mode and selective reporting, where the
/// Windows touchpad driver looks for them.
pub const CONFIGURATION_COLLECTION: [u8; 51] = [
    0x05, 0x0D,  // usage page: digitizer
    0x09, 0x0E,  // usage: configuration
    0xA1, 0x01,  // collection: application
    0x09, 0x22, 0xA1, 0x02,  // usage: finger; collection: logical
    0x85, 0x08,  // report id 8: input mode
    0x09, 0x52,  // usage: input mode
    0x15, 0x00, 0x25, 0x0A,  // logical range 0 to 10
    0x95, 0x01, 0x75, 0x08,  // one field of eight bits
    0xB1, 0x02,  // feature: data, variable, absolute
    0xC0,  // end of the logical collection
    0x09, 0x22, 0xA1, 0x00,  // usage: finger; collection: physical
    0x85, 0x09,  // report id 9: selective reporting
    0x09, 0x57, 0x09, 0x58,  // usages: surface switch, button switch
    0x15, 0x00, 0x25, 0x01,  // logical range 0 to 1
    0x95, 0x02, 0x75, 0x01,  // two fields of one bit
    0xB1, 0x02,  // feature: data, variable, absolute
    0x95, 0x06, 0xB1, 0x03,  // six bits of padding
    0xC0,  // end of the physical collection
    0xC0,  // end of the application collection
];

/// Tag of an item that gives a logical maximum in two bytes.
pub const LOGICAL_MAXIMUM: u8 = 0x26;

/// Tag of an item that gives a physical maximum in two bytes.
pub const PHYSICAL_MAXIMUM: u8 = 0x46;

/// A descriptor item with a two-byte value.
pub open spec fn item(tag: u8, value: u16) -> Seq<u8> {
    seq![tag] + bytes::le16(value)
}

/// The collection of the first finger, which declares the physical extent that
/// the other fingers inherit.
pub open spec fn first_finger(dims: TrackpadDimensions) -> Seq<u8> {
    FIRST_FINGER_HEAD@ + item(LOGICAL_MAXIMUM, dims.logical_max_x) + FIRST_FINGER_X@ + item(
        PHYSICAL_MAXIMUM,
        dims.physical_dmm_x,
    ) + FIRST_FINGER_X_INPUT@ + item(PHYSICAL_MAXIMUM, dims.physical_dmm_y) + item(
        LOGICAL_MAXIMUM,
        dims.logical_max_y,
    ) + FINGER_Y_INPUT@
}

/// The collection of a further finger.
pub open spec fn further_finger(dims: TrackpadDimensions) -> Seq<u8> {
    FINGER_HEAD@ + item(LOGICAL_MAXIMUM, dims.logical_max_x) + FINGER_X_INPUT@ + item(
        LOGICAL_MAXIMUM,
        dims.logical_max_y,
    ) + FINGER_Y_INPUT@
}

/// The collections of `count` further fingers.
pub open spec fn further_fingers(dims: TrackpadDimensions, count: int) -> Seq<u8>
    decreases count,
{
    if count <= 0 {
        Seq::empty()
    } else {
        further_fingers(dims, count - 1) + further_finger(dims)
    }
}

/// The descriptor of a panel: a mouse collection, a touchpad collection with
/// five fingers and a configuration collection.
pub open spec fn descriptor(dims: TrackpadDimensions) -> Seq<u8> {
    MOUSE_COLLECTION@ + TOUCHPAD_OPEN@ + first_finger(dims) + further_fingers(dims, 4)
        + TOUCHPAD_TAIL@ + CONFIGURATION_COLLECTION@
}

/// Every further finger takes 55 bytes.
pub proof fn lemma_further_fingers_len(dims: TrackpadDimensions, count: int)
    requires
        0 <= count,
    ensures
        further_fingers(dims, count).len() == 55 * count,
    decreases count,
{
    if count > 0 {
        lemma_further_fingers_len(dims, count - 1);
    }
}

/// The descriptor takes 499 bytes whatever the panel, and so fits its buffer.
pub proof fn descriptor_has_one_length(dims: TrackpadDimensions)
    ensures
        descriptor(dims).len() == 499,
        descriptor(dims).len() <= TRACKPAD_DESC_BUF_SIZE,
{
    lemma_further_fingers_len(dims, 4);
}

/// Where the parts of a descriptor stand.
proof fn lemma_parts(dims: TrackpadDimensions)
    ensures
        descriptor(dims).len() == 499,
        descriptor(dims).subrange(0, 50) == MOUSE_COLLECTION@,
        descriptor(dims).subrange(50, 58) == TOUCHPAD_OPEN@,
        descriptor(dims).subrange(58, 123) == first_finger(dims),
        descriptor(dims).subrange(123, 343) == further_fingers(dims, 4),
        descriptor(dims).subrange(343, 448) == TOUCHPAD_TAIL@,
        descriptor(dims).subrange(448, 499) == CONFIGURATION_COLLECTION@,
{
    descriptor_has_one_length(dims);
    lemma_further_fingers_len(dims, 4);
    let whole = descriptor(dims);
    assert(whole.subrange(0, 50) =~= MOUSE_COLLECTION@);
    assert(whole.subrange(50, 58) =~= TOUCHPAD_OPEN@);
    assert(whole.subrange(58, 123) =~= first_finger(dims));
    assert(whole.subrange(123, 343) =~= further_fingers(dims, 4));
    assert(whole.subrange(343, 448) =~= TOUCHPAD_TAIL@);
    assert(whole.subrange(448, 499) =~= CONFIGURATION_COLLECTION@);
}

/// Further finger `k` stands behind the `k` before it.
proof fn lemma_further_finger_at(dims: TrackpadDimensions, count: int, k: int)
    requires
        0 <= k < count,
    ensures
        further_fingers(dims, count).subrange(55 * k, 55 * k + 55) == further_finger(dims),
    decreases count,
{
    lemma_further_fingers_len(dims, count - 1);
    let all = further_fingers(dims, count);
    if k == count - 1 {
        assert(all.subrange(55 * k, 55 * k + 55) =~= further_finger(dims));
    } else {
        lemma_further_finger_at(dims, count - 1, k);
        assert(all.subrange(55 * k, 55 * k + 55) =~= further_fingers(dims, count - 1).subrange(
            55 * k,
            55 * k + 55,
        ));
    }
}

/// Further finger `k` stands at byte `123 + 55 * k` of the descriptor.
proof fn lemma_further_finger_in_descriptor(dims: TrackpadDimensions, k: int)
    requires
        0 <= k < 4,
    ensures
        descriptor(dims).len() == 499,
        descriptor(dims).subrange(123 + 55 * k, 178 + 55 * k) == further_finger(dims),
{
    lemma_parts(dims);
    lemma_further_fingers_len(dims, 4);
    lemma_further_finger_at(dims, 4, k);
    assert(descriptor(dims).subrange(123 + 55 * k, 178 + 55 * k) =~= descriptor(dims).subrange(
        123,
        343,
    ).subrange(55 * k, 55 * k + 55));
}

/// The three application collections, each with its usage in front: the mouse at
/// byte 4, the touchpad at byte 54 and the configuration at byte 452.
pub proof fn descriptor_has_three_collections(dims: TrackpadDimensions)
    ensures
        descriptor(dims).subrange(2, 6) == seq![0x09u8, 0x02, 0xA1, 0x01],
        descriptor(dims).subrange(52, 56) == seq![0x09u8, 0x05, 0xA1, 0x01],
        descriptor(dims).subrange(450, 454) == seq![0x09u8, 0x0E, 0xA1, 0x01],
{
    lemma_parts(dims);
    let whole = descriptor(dims);
    assert(whole.subrange(2, 6) =~= whole.subrange(0, 50).subrange(2, 6));
    assert(MOUSE_COLLECTION@.subrange(2, 6) =~= seq![0x09u8, 0x02, 0xA1, 0x01]);
    assert(whole.subrange(52, 56) =~= whole.subrange(50, 58).subrange(2, 6));
    assert(TOUCHPAD_OPEN@.subrange(2, 6) =~= seq![0x09u8, 0x05, 0xA1, 0x01]);
    assert(whole.subrange(450, 454) =~= whole.subrange(448, 499).subrange(2, 6));
    assert(CONFIGURATION_COLLECTION@.subrange(2, 6) =~= seq![0x09u8, 0x0E, 0xA1, 0x01]);
}

/// The panel's dimensions stand in the descriptor: the logical maxima in every
/// finger, and the physical extents in the first.
pub proof fn descriptor_announces_the_panel(dims: TrackpadDimensions, k: int)
    requires
        0 <= k < 4,
    ensures
        descriptor(dims).subrange(93, 95) == bytes::le16(dims.logical_max_x),
        descriptor(dims).subrange(106, 108) == bytes::le16(dims.physical_dmm_x),
        descriptor(dims).subrange(113, 115) == bytes::le16(dims.physical_dmm_y),
        descriptor(dims).subrange(116, 118) == bytes::le16(dims.logical_max_y),
        descriptor(dims).subrange(162 + 55 * k, 164 + 55 * k) == bytes::le16(dims.logical_max_x),
        descriptor(dims).subrange(171 + 55 * k, 173 + 55 * k) == bytes::le16(dims.logical_max_y),
{
    lemma_parts(dims);
    lemma_further_finger_in_descriptor(dims, k);
    let whole = descriptor(dims);
    let first = first_finger(dims);
    let further = further_finger(dims);
    assert(whole.subrange(93, 95) =~= whole.subrange(58, 123).subrange(35, 37));
    assert(first.subrange(35, 37) =~= bytes::le16(dims.logical_max_x));
    assert(whole.subrange(106, 108) =~= whole.subrange(58, 123).subrange(48, 50));
    assert(first.subrange(48, 50) =~= bytes::le16(dims.physical_dmm_x));
    assert(whole.subrange(113, 115) =~= whole.subrange(58, 123).subrange(55, 57));
    assert(first.subrange(55, 57) =~= bytes::le16(dims.physical_dmm_y));
    assert(whole.subrange(116, 118) =~= whole.subrange(58, 123).subrange(58, 60));
    assert(first.subrange(58, 60) =~= bytes::le16(dims.logical_max_y));
    let at = 123 + 55 * k;
    assert(whole.subrange(162 + 55 * k, 164 + 55 * k) =~= whole.subrange(at, at + 55).subrange(
        39,
        41,
    ));
    assert(further.subrange(39, 41) =~= bytes::le16(dims.logical_max_x));
    assert(whole.subrange(171 + 55 * k, 173 + 55 * k) =~= whole.subrange(at, at + 55).subrange(
        48,
        50,
    ));
    assert(further.subrange(48, 50) =~= bytes::le16(dims.logical_max_y));
}

/// The descriptor declares the reports that are sent and the features that are answered
/// under their ids, and as many contacts as a report holds.
pub proof fn descriptor_names_the_reports(
    dims: TrackpadDimensions,
    mouse: TrackpadLegacyMouseReport,
    touchpad: TrackpadPtpReport,
    mode: u8,
)
    ensures
        ({
            let d = descriptor(dims);
            &&& d[6] == 0x85 && d[7] == report::mouse_bytes(mouse)[0]
            &&& d[56] == 0x85 && d[57] == report::ptp_bytes(touchpad)[0]
            &&& d[370] == 0x25 && d[371] == report::TRACKPAD_MAX_CONTACTS
            &&& d[402] == 0x85 && request::readable(ReportId::Feature(d[403]), mode) == Some(
                seq![0x07u8, 0x25],
            )
            &&& d[416] == 0x85 && request::readable(ReportId::Feature(d[417]), mode) == Some(
                seq![0x06u8, 0],
            )
            &&& d[431] == 0x85 && request::readable(ReportId::Feature(d[432]), mode) == Some(
                seq![0x0Fu8] + request::PTPHQA_BLOB@,
            )
            &&& d[458] == 0x85 && request::readable(ReportId::Feature(d[459]), mode) == Some(
                seq![0x08u8, mode],
            )
            &&& d[477] == 0x85 && request::readable(ReportId::Feature(d[478]), mode) == Some(
                seq![0x09u8, 3],
            )
        }),
{
    lemma_parts(dims);
    let d = descriptor(dims);
    let opening = d.subrange(0, 50);
    let touch = d.subrange(50, 58);
    let tail = d.subrange(343, 448);
    let configuration = d.subrange(448, 499);
    assert(d[6] == opening[6] && d[7] == opening[7]);
    assert(d[56] == touch[6] && d[57] == touch[7]);
    assert(d[370] == tail[27] && d[371] == tail[28]);
    assert(d[402] == tail[59] && d[403] == tail[60]);
    assert(d[416] == tail[73] && d[417] == tail[74]);
    assert(d[431] == tail[88] && d[432] == tail[89]);
    assert(d[458] == configuration[10] && d[459] == configuration[11]);
    assert(d[477] == configuration[29] && d[478] == configuration[30]);
}

/// Two bytes of a descriptor.
pub open spec fn pair_at(d: Seq<u8>, i: int, tag: u8, value: u8) -> bool {
    d[i] == tag && d[i + 1] == value
}

/// The fields of a report stand in the descriptor as on the wire. For the mouse: buttons
/// 1 to 3, then X and Y, which are relative. For every finger: confidence, tip switch and
/// contact id, then X and Y, which are absolute; behind the fingers the scan time, the
/// contact count and buttons 1 to 3.
pub proof fn descriptor_declares_the_fields(dims: TrackpadDimensions, k: int)
    requires
        0 <= k < 4,
    ensures
        ({
            let d = descriptor(dims);
            &&& pair_at(d, 14, 0x19, 1) && pair_at(d, 16, 0x29, 3)
            &&& pair_at(d, 34, 0x09, 0x30) && pair_at(d, 36, 0x09, 0x31)
            &&& pair_at(d, 46, 0x81, 0x06)
        }),
        ({
            let d = descriptor(dims);
            &&& pair_at(d, 62, 0x09, 0x47) && pair_at(d, 64, 0x09, 0x42)
            &&& pair_at(d, 82, 0x09, 0x51)
            &&& pair_at(d, 101, 0x09, 0x30) && pair_at(d, 110, 0x81, 0x02)
            &&& pair_at(d, 118, 0x09, 0x31) && pair_at(d, 120, 0x81, 0x02)
        }),
        ({
            let d = descriptor(dims);
            let at = 123 + 55 * k;
            &&& pair_at(d, at + 8, 0x09, 0x47) && pair_at(d, at + 10, 0x09, 0x42)
            &&& pair_at(d, at + 28, 0x09, 0x51)
            &&& pair_at(d, at + 43, 0x09, 0x30) && pair_at(d, at + 45, 0x81, 0x02)
            &&& pair_at(d, at + 50, 0x09, 0x31) && pair_at(d, at + 52, 0x81, 0x02)
        }),
        ({
            let d = descriptor(dims);
            &&& pair_at(d, 364, 0x09, 0x56) && pair_at(d, 368, 0x09, 0x54)
            &&& pair_at(d, 384, 0x19, 1) && pair_at(d, 386, 0x29, 3)
        }),
{
    lemma_parts(dims);
    lemma_further_finger_in_descriptor(dims, k);
    let d = descriptor(dims);
    let opening = d.subrange(0, 50);
    assert forall|i: int| 0 <= i < 50 implies d[i] == #[trigger] opening[i] by {}
    assert(opening[14] == 0x19 && opening[15] == 1 && opening[16] == 0x29 && opening[17] == 3);
    assert(opening[34] == 0x09 && opening[35] == 0x30 && opening[36] == 0x09 && opening[37]
        == 0x31);
    assert(opening[46] == 0x81 && opening[47] == 0x06);
    let first = d.subrange(58, 123);
    assert forall|i: int| 0 <= i < 65 implies d[58 + i] == #[trigger] first[i] by {}
    assert(first[4] == 0x09 && first[5] == 0x47 && first[6] == 0x09 && first[7] == 0x42);
    assert(first[24] == 0x09 && first[25] == 0x51);
    assert(first[43] == 0x09 && first[44] == 0x30 && first[52] == 0x81 && first[53] == 0x02);
    assert(first[60] == 0x09 && first[61] == 0x31 && first[62] == 0x81 && first[63] == 0x02);
    let at = 123 + 55 * k;
    let further = d.subrange(at, at + 55);
    assert forall|i: int| 0 <= i < 55 implies d[at + i] == #[trigger] further[i] by {}
    assert(further[8] == 0x09 && further[9] == 0x47 && further[10] == 0x09 && further[11] == 0x42);
    assert(further[28] == 0x09 && further[29] == 0x51);
    assert(further[43] == 0x09 && further[44] == 0x30 && further[45] == 0x81 && further[46]
        == 0x02);
    assert(further[50] == 0x09 && further[51] == 0x31 && further[52] == 0x81 && further[53]
        == 0x02);
    let tail = d.subrange(343, 448);
    assert forall|i: int| 0 <= i < 105 implies d[343 + i] == #[trigger] tail[i] by {}
    assert(tail[21] == 0x09 && tail[22] == 0x56 && tail[25] == 0x09 && tail[26] == 0x54);
    assert(tail[41] == 0x19 && tail[42] == 1 && tail[43] == 0x29 && tail[44] == 3);
}

/// Byte `i` of a descriptor belongs to a dimension of the panel.
pub open spec fn is_dimension_byte(i: int) -> bool {
    ||| 93 <= i < 95
    ||| 106 <= i < 108
    ||| 113 <= i < 115
    ||| 116 <= i < 118
    ||| 162 <= i < 343 && ((i - 162) % 55 < 2 || 9 <= (i - 162) % 55 < 11)
}

/// The first fingers of two panels differ in their dimensions only.
proof fn lemma_first_fingers_agree(one: TrackpadDimensions, other: TrackpadDimensions, i: int)
    requires
        0 <= i < 65,
        !(35 <= i < 37) && !(48 <= i < 50) && !(55 <= i < 57) && !(58 <= i < 60),
    ensures
        first_finger(one)[i] == first_finger(other)[i],
{
}

/// The further fingers of two panels differ in their dimensions only.
proof fn lemma_further_fingers_agree(one: TrackpadDimensions, other: TrackpadDimensions, i: int)
    requires
        0 <= i < 55,
        !(39 <= i < 41) && !(48 <= i < 50),
    ensures
        further_finger(one)[i] == further_finger(other)[i],
{
}

/// Byte `i` of further finger `k` in the descriptor is no dimension exactly if it
/// is none in the finger.
proof fn lemma_finger_byte(i: int, k: int)
    requires
        0 <= k < 4,
        123 + 55 * k <= i < 178 + 55 * k,
        !is_dimension_byte(i),
    ensures
        !(39 <= i - (123 + 55 * k) < 41) && !(48 <= i - (123 + 55 * k) < 50),
{
}

/// What stands at byte `i` of a descriptor, in the part that the byte belongs to.
proof fn lemma_byte_of_part(dims: TrackpadDimensions, from: int, to: int, i: int)
    requires
        0 <= from <= i < to <= descriptor(dims).len(),
    ensures
        descriptor(dims)[i] == descriptor(dims).subrange(from, to)[i - from],
{
}

/// The descriptors of two panels differ in their dimensions only.
pub proof fn descriptors_differ_in_dimensions_only(
    one: TrackpadDimensions,
    other: TrackpadDimensions,
    i: int,
)
    requires
        0 <= i < 499,
        !is_dimension_byte(i),
    ensures
        descriptor(one)[i] == descriptor(other)[i],
{
    lemma_parts(one);
    lemma_parts(other);
    let k = (i - 123) / 55;
    let (from, to): (int, int) = if i < 50 {
        (0, 50)
    } else if i < 58 {
        (50, 58)
    } else if i < 123 {
        (58, 123)
    } else if i < 343 {
        (123 + 55 * k, 178 + 55 * k)
    } else if i < 448 {
        (343, 448)
    } else {
        (448, 499)
    };
    lemma_byte_of_part(one, from, to, i);
    lemma_byte_of_part(other, from, to, i);
    if 58 <= i < 123 {
        lemma_first_fingers_agree(one, other, i - 58);
    } else if 123 <= i < 343 {
        lemma_further_finger_in_descriptor(one, k);
        lemma_further_finger_in_descriptor(other, k);
        lemma_finger_byte(i, k);
        lemma_further_fingers_agree(one, other, i - from);
    }
}

/// Writes the item of `tag` with `value` at `at` and returns its end.
fn put_item(buf: &mut [u8], at: usize, tag: u8, value: u16) -> (end: usize)
    requires
        at + 3 <= old(buf)@.len(),
    ensures
        end == at + 3,
        bytes::appended(old(buf)@, final(buf)@, at as int, item(tag, value)),
{
    let bytes: [u8; 3] = [tag, (value % 256) as u8, (value / 256) as u8];
    assert(bytes@ =~= item(tag, value));
    bytes::put_all(buf, at, bytes.as_slice())
}

/// Writes the first finger's collection at `at` and returns its end.
fn put_first_finger(buf: &mut [u8], at: usize, dims: TrackpadDimensions) -> (end: usize)
    requires
        at + 65 <= old(buf)@.len(),
    ensures
        end == at + 65,
        bytes::appended(old(buf)@, final(buf)@, at as int, first_finger(dims)),
{
    let ghost start = buf@;
    let ghost a: int = at as int;
    let ghost s1 = FIRST_FINGER_HEAD@ + item(LOGICAL_MAXIMUM, dims.logical_max_x);
    let ghost s2 = s1 + FIRST_FINGER_X@;
    let ghost s3 = s2 + item(PHYSICAL_MAXIMUM, dims.physical_dmm_x);
    let ghost s4 = s3 + FIRST_FINGER_X_INPUT@;
    let ghost s5 = s4 + item(PHYSICAL_MAXIMUM, dims.physical_dmm_y);
    let ghost s6 = s5 + item(LOGICAL_MAXIMUM, dims.logical_max_y);
    let p: usize = bytes::put_all(buf, at, FIRST_FINGER_HEAD.as_slice());
    let ghost b0 = buf@;
    let p: usize = put_item(buf, p, LOGICAL_MAXIMUM, dims.logical_max_x);
    let ghost b1 = buf@;
    let p: usize = bytes::put_all(buf, p, FIRST_FINGER_X.as_slice());
    let ghost b2 = buf@;
    let p: usize = put_item(buf, p, PHYSICAL_MAXIMUM, dims.physical_dmm_x);
    let ghost b3 = buf@;
    let p: usize = bytes::put_all(buf, p, FIRST_FINGER_X_INPUT.as_slice());
    let ghost b4 = buf@;
    let p: usize = put_item(buf, p, PHYSICAL_MAXIMUM, dims.physical_dmm_y);
    let ghost b5 = buf@;
    let p: usize = put_item(buf, p, LOGICAL_MAXIMUM, dims.logical_max_y);
    let ghost b6 = buf@;
    let p: usize = bytes::put_all(buf, p, FINGER_Y_INPUT.as_slice());
    proof {
        bytes::lemma_appended(
            start,
            b0,
            b1,
            a,
            FIRST_FINGER_HEAD@,
            item(LOGICAL_MAXIMUM, dims.logical_max_x),
        );
        bytes::lemma_appended(start, b1, b2, a, s1, FIRST_FINGER_X@);
        bytes::lemma_appended(start, b2, b3, a, s2, item(PHYSICAL_MAXIMUM, dims.physical_dmm_x));
        bytes::lemma_appended(start, b3, b4, a, s3, FIRST_FINGER_X_INPUT@);
        bytes::lemma_appended(start, b4, b5, a, s4, item(PHYSICAL_MAXIMUM, dims.physical_dmm_y));
        bytes::lemma_appended(start, b5, b6, a, s5, item(LOGICAL_MAXIMUM, dims.logical_max_y));
        bytes::lemma_appended(start, b6, buf@, a, s6, FINGER_Y_INPUT@);
    }
    p
}

/// Writes a further finger's collection at `at` and returns its end.
fn put_further_finger(buf: &mut [u8], at: usize, dims: TrackpadDimensions) -> (end: usize)
    requires
        at + 55 <= old(buf)@.len(),
    ensures
        end == at + 55,
        bytes::appended(old(buf)@, final(buf)@, at as int, further_finger(dims)),
{
    let ghost start = buf@;
    let ghost a: int = at as int;
    let ghost s1 = FINGER_HEAD@ + item(LOGICAL_MAXIMUM, dims.logical_max_x);
    let ghost s2 = s1 + FINGER_X_INPUT@;
    let ghost s3 = s2 + item(LOGICAL_MAXIMUM, dims.logical_max_y);
    let p: usize = bytes::put_all(buf, at, FINGER_HEAD.as_slice());
    let ghost b0 = buf@;
    let p: usize = put_item(buf, p, LOGICAL_MAXIMUM, dims.logical_max_x);
    let ghost b1 = buf@;
    let p: usize = bytes::put_all(buf, p, FINGER_X_INPUT.as_slice());
    let ghost b2 = buf@;
    let p: usize = put_item(buf, p, LOGICAL_MAXIMUM, dims.logical_max_y);
    let ghost b3 = buf@;
    let p: usize = bytes::put_all(buf, p, FINGER_Y_INPUT.as_slice());
    proof {
        bytes::lemma_appended(
            start,
            b0,
            b1,
            a,
            FINGER_HEAD@,
            item(LOGICAL_MAXIMUM, dims.logical_max_x),
        );
        bytes::lemma_appended(start, b1, b2, a, s1, FINGER_X_INPUT@);
        bytes::lemma_appended(start, b2, b3, a, s2, item(LOGICAL_MAXIMUM, dims.logical_max_y));
        bytes::lemma_appended(start, b3, buf@, a, s3, FINGER_Y_INPUT@);
    }
    p
}

/// Writes the descriptor of a panel to the front of `buf` and returns its
/// length.
pub fn write_trackpad_descriptor(buf: &mut [u8], dims: TrackpadDimensions) -> (len: usize)
    requires
        499 <= old(buf)@.len(),
    ensures
        len == descriptor(dims).len() == 499,
        final(buf)@ == bytes::overlaid(old(buf)@, descriptor(dims)),
        final(buf)@.skip(499) == old(buf)@.skip(499),
{
    proof {
        descriptor_has_one_length(dims);
    }
    let ghost start = buf@;
    let ghost s1 = MOUSE_COLLECTION@ + TOUCHPAD_OPEN@;
    let ghost s2 = s1 + first_finger(dims);
    let p: usize = bytes::put_all(buf, 0, MOUSE_COLLECTION.as_slice());
    let ghost b0 = buf@;
    let p: usize = bytes::put_all(buf, p, TOUCHPAD_OPEN.as_slice());
    let ghost b1 = buf@;
    let mut p: usize = put_first_finger(buf, p, dims);
    proof {
        bytes::lemma_appended(start, b0, b1, 0, MOUSE_COLLECTION@, TOUCHPAD_OPEN@);
        bytes::lemma_appended(start, b1, buf@, 0, s1, first_finger(dims));
        assert(s2 + further_fingers(dims, 0) =~= s2);
    }
    let mut i: usize = 0;
    while i < 4
        invariant
            i <= 4,
            p == 123 + 55 * i,
            start.len() >= 499,
            s2.len() == 123,
            bytes::appended(start, buf@, 0, s2 + further_fingers(dims, i as int)),
        decreases 4 - i,
    {
        let ghost before = buf@;
        proof {
            lemma_further_fingers_len(dims, i as int);
        }
        p = put_further_finger(buf, p, dims);
        i = i + 1;
        proof {
            let done = s2 + further_fingers(dims, i - 1);
            bytes::lemma_appended(start, before, buf@, 0, done, further_finger(dims));
            assert(done + further_finger(dims) =~= s2 + further_fingers(dims, i as int));
        }
    }
    let ghost b2 = buf@;
    let ghost s3 = s2 + further_fingers(dims, 4);
    proof {
        lemma_further_fingers_len(dims, 4);
    }
    let p: usize = bytes::put_all(buf, p, TOUCHPAD_TAIL.as_slice());
    let ghost b3 = buf@;
    let p: usize = bytes::put_all(buf, p, CONFIGURATION_COLLECTION.as_slice());
    proof {
        bytes::lemma_appended(start, b2, b3, 0, s3, TOUCHPAD_TAIL@);
        bytes::lemma_appended(start, b3, buf@, 0, s3 + TOUCHPAD_TAIL@, CONFIGURATION_COLLECTION@);
        assert(buf@ =~= bytes::overlaid(start, descriptor(dims)));
    }
    p
}

/// An installed descriptor: the buffer that holds it and its length.
pub struct TrackpadDescriptor {
    buf: [u8; 512],
    len: usize,
}

impl View for TrackpadDescriptor {
    type V = Seq<u8>;

    closed spec fn view(&self) -> Seq<u8> {
        self.buf@.take(self.len as int)
    }
}

impl TrackpadDescriptor {
    #[verifier::type_invariant]
    spec fn fits(self) -> bool {
        self.len <= 512
    }

    /// The bytes of the installed descriptor. It must have been installed before
    /// the interface is enumerated.
    pub fn desc(slot: &Option<TrackpadDescriptor>) -> (bytes: &[u8])
        requires
            slot is Some,
        ensures
            bytes@ == slot->0@,
    {
        match slot {
            Some(installed) => {
                proof {
                    use_type_invariant(installed);
                }
                slice_subrange(installed.buf.as_slice(), 0, installed.len)
            },
            None => &[],
        }
    }
}

/// Builds the descriptor for a panel and puts it into `slot`, which is filled
/// once, before the interface is enumerated. Returns the parameters unchanged.
pub fn install_trackpad_descriptor(
    slot: &mut Option<TrackpadDescriptor>,
    params: TrackpadParams,
) -> (same: TrackpadParams)
    requires
        *old(slot) is None,
    ensures
        same == params,
        *final(slot) is Some,
        (*final(slot))->0@ == descriptor(params.dims),
{
    proof {
        descriptor_has_one_length(params.dims);
    }
    let mut buf = [0u8;512];
    let len: usize = write_trackpad_descriptor(&mut buf, params.dims);
    assert(buf@.take(len as int) =~= descriptor(params.dims));
    *slot = Some(TrackpadDescriptor { buf, len });
    params
}

/// The parts of the descriptor that do not depend on the panel are as hosts know them: no
/// byte of a part is changed and no two are exchanged.
pub proof fn fixed_parts_are_whole()
    ensures
        LOGICAL_MAXIMUM == 0x26,
        PHYSICAL_MAXIMUM == 0x46,
        bytes::checksum(MOUSE_COLLECTION@, 50) == 79614,
        bytes::checksum(TOUCHPAD_OPEN@, 8) == 1860,
        bytes::checksum(FIRST_FINGER_HEAD@, 34) == 32405,
        bytes::checksum(FIRST_FINGER_X@, 10) == 1991,
        bytes::checksum(FIRST_FINGER_X_INPUT@, 4) == 546,
        bytes::checksum(FINGER_Y_INPUT@, 5) == 1462,
        bytes::checksum(FINGER_HEAD@, 38) == 39255,
        bytes::checksum(FINGER_X_INPUT@, 6) == 1025,
        bytes::checksum(TOUCHPAD_TAIL@, 105) == 355617,
        bytes::checksum(CONFIGURATION_COLLECTION@, 51) == 93803,
{
    lemma_mouse_collection_sum();
    lemma_touchpad_open_sum();
    lemma_first_finger_head_sum();
    lemma_first_finger_x_sum();
    lemma_first_finger_x_input_sum();
    lemma_finger_y_input_sum();
    lemma_finger_head_sum();
    lemma_finger_x_input_sum();
    lemma_touchpad_tail_sum();
    lemma_configuration_collection_sum();
}

/// The checksum of one part.
proof fn lemma_mouse_collection_sum()
    ensures
        bytes::checksum(MOUSE_COLLECTION@, 50) == 79614,
{
    let part = MOUSE_COLLECTION@;
    assert(bytes::checksum(part, 0) == 0);
    assert(bytes::checksum(part, 8) == 1792) by {
        reveal_with_fuel(bytes::checksum, 9);
    }
    assert(bytes::checksum(part, 16) == 4236) by {
        reveal_with_fuel(bytes::checksum, 9);
    }
    assert(bytes::checksum(part, 24) == 8900) by {
        reveal_with_fuel(bytes::checksum, 9);
    }
    assert(bytes::checksum(part, 32) == 24808) by {
        reveal_with_fuel(bytes::checksum, 9);
    }
    assert(bytes::checksum(part, 40) == 35224) by {
        reveal_with_fuel(bytes::checksum, 9);
    }
    assert(bytes::checksum(part, 48) == 60606) by {
        reveal_with_fuel(bytes::checksum, 9);
    }
    assert(bytes::checksum(part, 50) == 79614) by {
        reveal_with_fuel(bytes::checksum, 9);
    }
}

/// The checksum of one part.
proof fn lemma_touchpad_open_sum()
    ensures
        bytes::checksum(TOUCHPAD_OPEN@, 8) == 1860,
{
    let part = TOUCHPAD_OPEN@;
    assert(bytes::checksum(part, 0) == 0);
    assert(bytes::checksum(part, 8) == 1860) by {
        reveal_with_fuel(bytes::checksum, 9);
    }
}

/// The checksum of one part.
proof fn lemma_first_finger_head_sum()
    ensures
        bytes::checksum(FIRST_FINGER_HEAD@, 34) == 32405,
{
    let part = FIRST_FINGER_HEAD@;
    assert(bytes::checksum(part, 0) == 0);
    assert(bytes::checksum(part, 8) == 1630) by {
        reveal_with_fuel(bytes::checksum, 9);
    }
    assert(bytes::checksum(part, 16) == 6040) by {
        reveal_with_fuel(bytes::checksum, 9);
    }
    assert(bytes::checksum(part, 24) == 16878) by {
        reveal_with_fuel(bytes::checksum, 9);
    }
    assert(bytes::checksum(part, 32) == 32206) by {
        reveal_with_fuel(bytes::checksum, 9);
    }
    assert(bytes::checksum(part, 34) == 32405) by {
        reveal_with_fuel(bytes::checksum, 9);
    }
}

/// The checksum of one part.
proof fn lemma_first_finger_x_sum()
    ensures
        bytes::checksum(FIRST_FINGER_X@, 10) == 1991,
{
    let part = FIRST_FINGER_X@;
    assert(bytes::checksum(part, 0) == 0);
    assert(bytes::checksum(part, 8) == 1514) by {
        reveal_with_fuel(bytes::checksum, 9);
    }
    assert(bytes::checksum(part, 10) == 1991) by {
        reveal_with_fuel(bytes::checksum, 9);
    }
}

/// The checksum of one part.
proof fn lemma_first_finger_x_input_sum()
    ensures
        bytes::checksum(FIRST_FINGER_X_INPUT@, 4) == 546,
{
    let part = FIRST_FINGER_X_INPUT@;
    assert(bytes::checksum(part, 0) == 0);
    assert(bytes::checksum(part, 4) == 546) by {
        reveal_with_fuel(bytes::checksum, 9);
    }
}

/// The checksum of one part.
proof fn lemma_finger_y_input_sum()
    ensures
        bytes::checksum(FINGER_Y_INPUT@, 5) == 1462,
{
    let part = FINGER_Y_INPUT@;
    assert(bytes::checksum(part, 0) == 0);
    assert(bytes::checksum(part, 5) == 1462) by {
        reveal_with_fuel(bytes::checksum, 9);
    }
}

/// The checksum of one part.
proof fn lemma_finger_head_sum()
    ensures
        bytes::checksum(FINGER_HEAD@, 38) == 39255,
{
    let part = FINGER_HEAD@;
    assert(bytes::checksum(part, 0) == 0);
    assert(bytes::checksum(part, 8) == 1150) by {
        reveal_with_fuel(bytes::checksum, 9);
    }
    assert(bytes::checksum(part, 16) == 3676) by {
        reveal_with_fuel(bytes::checksum, 9);
    }
    assert(bytes::checksum(part, 24) == 14878) by {
        reveal_with_fuel(bytes::checksum, 9);
    }
    assert(bytes::checksum(part, 32) == 28906) by {
        reveal_with_fuel(bytes::checksum, 9);
    }
    assert(bytes::checksum(part, 38) == 39255) by {
        reveal_with_fuel(bytes::checksum, 9);
    }
}

/// The checksum of one part.
proof fn lemma_finger_x_input_sum()
    ensures
        bytes::checksum(FINGER_X_INPUT@, 6) == 1025,
{
    let part = FINGER_X_INPUT@;
    assert(bytes::checksum(part, 0) == 0);
    assert(bytes::checksum(part, 6) == 1025) by {
        reveal_with_fuel(bytes::checksum, 9);
    }
}

/// The checksum of one part.
proof fn lemma_touchpad_tail_sum()
    ensures
        bytes::checksum(TOUCHPAD_TAIL@, 105) == 355617,
{
    let part = TOUCHPAD_TAIL@;
    assert(bytes::checksum(part, 0) == 0);
    assert(bytes::checksum(part, 8) == 1530) by {
        reveal_with_fuel(bytes::checksum, 9);
    }
    assert(bytes::checksum(part, 16) == 14277) by {
        reveal_with_fuel(bytes::checksum, 9);
    }
    assert(bytes::checksum(part, 24) == 24960) by {
        reveal_with_fuel(bytes::checksum, 9);
    }
    assert(bytes::checksum(part, 32) == 36938) by {
        reveal_with_fuel(bytes::checksum, 9);
    }
    assert(bytes::checksum(part, 40) == 48756) by {
        reveal_with_fuel(bytes::checksum, 9);
    }
    assert(bytes::checksum(part, 48) == 59522) by {
        reveal_with_fuel(bytes::checksum, 9);
    }
    assert(bytes::checksum(part, 56) == 89533) by {
        reveal_with_fuel(bytes::checksum, 9);
    }
    assert(bytes::checksum(part, 64) == 105657) by {
        reveal_with_fuel(bytes::checksum, 9);
    }
    assert(bytes::checksum(part, 72) == 146101) by {
        reveal_with_fuel(bytes::checksum, 9);
    }
    assert(bytes::checksum(part, 80) == 186293) by {
        reveal_with_fuel(bytes::checksum, 9);
    }
    assert(bytes::checksum(part, 88) == 227485) by {
        reveal_with_fuel(bytes::checksum, 9);
    }
    assert(bytes::checksum(part, 96) == 289658) by {
        reveal_with_fuel(bytes::checksum, 9);
    }
    assert(bytes::checksum(part, 104) == 335457) by {
        reveal_with_fuel(bytes::checksum, 9);
    }
    assert(bytes::checksum(part, 105) == 355617) by {
        reveal_with_fuel(bytes::checksum, 9);
    }
}

/// The checksum of one part.
proof fn lemma_configuration_collection_sum()
    ensures
        bytes::checksum(CONFIGURATION_COLLECTION@, 51) == 93803,
{
    let part = CONFIGURATION_COLLECTION@;
    assert(bytes::checksum(part, 0) == 0);
    assert(bytes::checksum(part, 8) == 1260) by {
        reveal_with_fuel(bytes::checksum, 9);
    }
    assert(bytes::checksum(part, 16) == 5868) by {
        reveal_with_fuel(bytes::checksum, 9);
    }
    assert(bytes::checksum(part, 24) == 16280) by {
        reveal_with_fuel(bytes::checksum, 9);
    }
    assert(bytes::checksum(part, 32) == 31297) by {
        reveal_with_fuel(bytes::checksum, 9);
    }
    assert(bytes::checksum(part, 40) == 45715) by {
        reveal_with_fuel(bytes::checksum, 9);
    }
    assert(bytes::checksum(part, 48) == 74264) by {
        reveal_with_fuel(bytes::checksum, 9);
    }
    assert(bytes::checksum(part, 51) == 93803) by {
        reveal_with_fuel(bytes::checksum, 9);
    }
}

} // verus!
