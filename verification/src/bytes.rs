//! Writing bytes into a caller's buffer.
use vstd::prelude::*;

verus! {

/// `buf` with its front replaced by `bytes`.
pub open spec fn overlaid(buf: Seq<u8>, bytes: Seq<u8>) -> Seq<u8> {
    bytes + buf.skip(bytes.len() as int)
}

/// `before` and `after` differ by `bytes` written at `at`.
pub open spec fn appended(before: Seq<u8>, after: Seq<u8>, at: int, bytes: Seq<u8>) -> bool {
    0 <= at && at + bytes.len() <= before.len() && after == before.take(at) + bytes + before.skip(
        at + bytes.len(),
    )
}

/// Two writes one behind the other are one write of both.
pub proof fn lemma_appended(
    before: Seq<u8>,
    between: Seq<u8>,
    after: Seq<u8>,
    at: int,
    first: Seq<u8>,
    second: Seq<u8>,
)
    requires
        appended(before, between, at, first),
        appended(between, after, at + first.len(), second),
    ensures
        appended(before, after, at, first + second),
{
    assert(after =~= before.take(at) + (first + second) + before.skip(
        at + (first + second).len(),
    ));
}

/// The little-endian bytes of `value`.
pub open spec fn le16(value: u16) -> Seq<u8> {
    seq![(value % 256) as u8, (value / 256) as u8]
}

/// The two's-complement byte of `value`.
pub open spec fn signed_byte(value: i8) -> u8 {
    if value < 0 {
        (value + 256) as u8
    } else {
        value as u8
    }
}

/// The bytes of a sequence below `end`, each times its place counted from one, summed up.
pub open spec fn checksum(bytes: Seq<u8>, end: int) -> int
    decreases end,
{
    if end <= 0 {
        0
    } else {
        checksum(bytes, end - 1) + end * bytes[end - 1]
    }
}

/// Writes `byte` at `at`, the end of the part of `buf` written so far, and
/// returns the new end.
pub(crate) fn put(buf: &mut [u8], at: usize, byte: u8) -> (end: usize)
    requires
        at < old(buf)@.len(),
    ensures
        end == at + 1,
        final(buf)@ == old(buf)@.update(at as int, byte),
        forall|original: Seq<u8>, written: Seq<u8>|
            old(buf)@ == #[trigger] overlaid(original, written) && written.len() == at
                && original.len() == old(buf)@.len() ==> final(buf)@ == overlaid(
                original,
                written.push(byte),
            ),
{
    let ghost before = buf@;
    buf[at] = byte;
    proof {
        assert forall|original: Seq<u8>, written: Seq<u8>|
            before == #[trigger] overlaid(original, written) && written.len() == at
                && original.len() == before.len() implies before.update(at as int, byte)
            == overlaid(original, written.push(byte)) by {
            assert(before.update(at as int, byte) =~= overlaid(original, written.push(byte)));
        }
    }
    at + 1
}

/// Writes `bytes` at `at`, the end of the part of `buf` written so far, and
/// returns the new end.
pub(crate) fn put_all(buf: &mut [u8], at: usize, bytes: &[u8]) -> (end: usize)
    requires
        at + bytes@.len() <= old(buf)@.len(),
    ensures
        end == at + bytes@.len(),
        appended(old(buf)@, final(buf)@, at as int, bytes@),
{
    let ghost before = buf@;
    let room: usize = buf.len();
    let mut i: usize = 0;
    while i < bytes.len()
        invariant
            i <= bytes@.len(),
            at + bytes@.len() <= before.len() == room,
            buf@ == before.take(at as int) + bytes@.take(i as int) + before.skip(at + i),
        decreases bytes@.len() - i,
    {
        buf[at + i] = bytes[i];
        i = i + 1;
        assert(buf@ =~= before.take(at as int) + bytes@.take(i as int) + before.skip(at + i));
    }
    assert(bytes@.take(i as int) == bytes@);
    at + i
}

/// Little-endian bytes give their value back: the first counts ones, the second
/// 256s.
pub proof fn little_endian_reads_back(value: u16)
    ensures
        le16(value).len() == 2,
        le16(value)[0] + 256 * le16(value)[1] == value,
{
}

/// A signed byte differs from its value by a multiple of 256.
pub proof fn signed_byte_reads_back(value: i8)
    ensures
        signed_byte(value) == value || signed_byte(value) == value + 256,
{
}

/// Writing to the front of a buffer changes the front and nothing else.
pub proof fn front_is_overwritten(buf: Seq<u8>, bytes: Seq<u8>, i: int)
    requires
        bytes.len() <= buf.len(),
        0 <= i < buf.len(),
    ensures
        overlaid(buf, bytes).len() == buf.len(),
        overlaid(buf, bytes)[i] == (if i < bytes.len() {
            bytes[i]
        } else {
            buf[i]
        }),
{
}

} // verus!
