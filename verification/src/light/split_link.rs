//! Lighting frames across a split link.
//!
//! One half renders the frame of the other and ships it as bytes, three per
//! LED, so that the other half needs neither the keymap nor the layer state.
use super::driver::{LightingDriver, Rgb};
use vstd::prelude::*;

verus! {

/// Most LEDs on the far half of a split keyboard.
pub const SPLIT_LIGHTING_MAX_LEDS: usize = 32;

/// Capacity of [`LightingFrameBytes`]: three bytes per LED.
pub const LIGHTING_FRAME_CAPACITY: usize = 96;

/// A packed frame, held in a `heapless::Vec` of capacity
/// [`LIGHTING_FRAME_CAPACITY`].
#[verifier::external_body]
#[derive(Debug)]
pub struct LightingFrameBytes {
    bytes: heapless::Vec<u8, 96>,
}

/// The bytes of a packed frame, first to last.
pub uninterp spec fn packed_bytes(frame: LightingFrameBytes) -> Seq<u8>;

impl View for LightingFrameBytes {
    type V = Seq<u8>;

    open spec fn view(&self) -> Seq<u8> {
        packed_bytes(*self)
    }
}

/// `heapless::Vec::new`: a vector without elements.
#[verifier::external_body]
fn heapless_new() -> (frame: LightingFrameBytes)
    ensures
        packed_bytes(frame) == Seq::<u8>::empty(),
{
    LightingFrameBytes { bytes: heapless::Vec::new() }
}

/// `heapless::Vec::push`: appends `byte` below the capacity, and hands it back
/// with the vector unchanged otherwise.
#[verifier::external_body]
fn heapless_push(frame: &mut LightingFrameBytes, byte: u8) -> (result: Result<(), u8>)
    ensures
        packed_bytes(*old(frame)).len() < LIGHTING_FRAME_CAPACITY ==> {
            &&& result == Ok::<(), u8>(())
            &&& packed_bytes(*final(frame)) == packed_bytes(*old(frame)).push(byte)
        },
        packed_bytes(*old(frame)).len() >= LIGHTING_FRAME_CAPACITY ==> {
            &&& result == Err::<(), u8>(byte)
            &&& packed_bytes(*final(frame)) == packed_bytes(*old(frame))
        },
{
    frame.bytes.push(byte)
}

/// `heapless::Vec::as_slice`: the elements in order, never more than the
/// capacity.
#[verifier::external_body]
fn heapless_as_slice(frame: &LightingFrameBytes) -> (bytes: &[u8])
    ensures
        bytes@ == packed_bytes(*frame),
        bytes@.len() <= LIGHTING_FRAME_CAPACITY,
{
    frame.bytes.as_slice()
}

impl LightingFrameBytes {
    /// No bytes.
    pub fn new() -> (frame: Self)
        ensures
            frame@ == Seq::<u8>::empty(),
    {
        heapless_new()
    }

    /// Appends `byte` if there is room, and hands it back otherwise.
    pub fn push(&mut self, byte: u8) -> (result: Result<(), u8>)
        ensures
            old(self)@.len() < LIGHTING_FRAME_CAPACITY ==> {
                &&& result == Ok::<(), u8>(())
                &&& final(self)@ == old(self)@.push(byte)
            },
            old(self)@.len() >= LIGHTING_FRAME_CAPACITY ==> {
                &&& result == Err::<(), u8>(byte)
                &&& final(self)@ == old(self)@
            },
    {
        heapless_push(self, byte)
    }

    /// The bytes in order.
    pub fn as_slice(&self) -> (bytes: &[u8])
        ensures
            bytes@ == self@,
            bytes@.len() <= LIGHTING_FRAME_CAPACITY,
    {
        heapless_as_slice(self)
    }
}

impl Default for LightingFrameBytes {
    /// No bytes.
    fn default() -> (frame: Self)
        ensures
            frame@ == Seq::<u8>::empty(),
    {
        Self::new()
    }
}

impl Clone for LightingFrameBytes {
    /// The same bytes again.
    fn clone(&self) -> (copy: Self)
        ensures
            copy@ == self@,
    {
        let bytes = self.as_slice();
        let mut copy = LightingFrameBytes::new();
        let mut i: usize = 0;
        while i < bytes.len()
            invariant
                bytes@ == self@,
                bytes@.len() <= LIGHTING_FRAME_CAPACITY,
                i <= bytes@.len(),
                copy@ == bytes@.take(i as int),
            decreases bytes@.len() - i,
        {
            let _ = copy.push(bytes[i]);
            assert(bytes@.take(i + 1) == bytes@.take(i as int).push(bytes@[i as int]));
            i = i + 1;
        }
        assert(bytes@.take(i as int) == bytes@);
        copy
    }
}

/// The bytes of a color: red, green, blue.
pub open spec fn color_bytes(color: Rgb) -> Seq<u8> {
    seq![color.r, color.g, color.b]
}

/// The bytes of a frame, LED by LED.
pub open spec fn packed(frame: Seq<Rgb>) -> Seq<u8>
    decreases frame.len(),
{
    if frame.len() == 0 {
        Seq::empty()
    } else {
        packed(frame.drop_last()) + color_bytes(frame.last())
    }
}

/// `frame` with its front replaced by the colors in `bytes`. Colors beyond the
/// frame and bytes short of a color are dropped.
pub open spec fn unpacked(frame: Seq<Rgb>, bytes: Seq<u8>) -> Seq<Rgb> {
    Seq::new(
        frame.len(),
        |i: int|
            if i < bytes.len() as int / 3 {
                Rgb { r: bytes[3 * i], g: bytes[3 * i + 1], b: bytes[3 * i + 2] }
            } else {
                frame[i]
            },
    )
}

/// A packed frame takes three bytes per LED, in the order of the LEDs.
proof fn lemma_packed_at(frame: Seq<Rgb>, i: int)
    ensures
        packed(frame).len() == 3 * frame.len(),
        0 <= i < frame.len() ==> {
            &&& packed(frame)[3 * i] == frame[i].r
            &&& packed(frame)[3 * i + 1] == frame[i].g
            &&& packed(frame)[3 * i + 2] == frame[i].b
        },
    decreases frame.len(),
{
    if frame.len() > 0 {
        lemma_packed_at(frame.drop_last(), i);
    }
}

/// The driver of the far half's strip: its frame is packed and shipped.
///
/// `N` is the LED count of the far half.
pub struct SplitShipDriver<const N: usize> {
    buf: [Rgb; N],
}

impl<const N: usize> SplitShipDriver<N> {
    /// A driver of black LEDs. The strip must fit a packed frame.
    pub fn new() -> (driver: Self)
        requires
            N <= SPLIT_LIGHTING_MAX_LEDS,
        ensures
            driver.frame() == Seq::new(N as nat, |i: int| Rgb { r: 0, g: 0, b: 0 }),
    {
        let buf = [Rgb::new(0, 0, 0);N];
        assert(buf@ =~= Seq::new(N as nat, |i: int| Rgb { r: 0, g: 0, b: 0 }));
        Self { buf }
    }

    /// Packs the frame for the link. The wire carries red, green, blue; the
    /// order that the far strip wants is up to its driver.
    pub fn pack(&self) -> (bytes: LightingFrameBytes)
        requires
            N <= SPLIT_LIGHTING_MAX_LEDS,
        ensures
            bytes@ == packed(self.frame()),
            bytes@.len() == 3 * N,
    {
        let mut bytes = LightingFrameBytes::default();
        let mut i: usize = 0;
        while i < N
            invariant
                i <= N <= SPLIT_LIGHTING_MAX_LEDS,
                bytes@ == packed(self.buf@.take(i as int)),
                bytes@.len() == 3 * i,
            decreases N - i,
        {
            let color = self.buf[i];
            let ghost before = bytes@;
            let _ = bytes.push(color.r);
            let _ = bytes.push(color.g);
            let _ = bytes.push(color.b);
            assert(self.buf@.take(i + 1).drop_last() == self.buf@.take(i as int));
            assert(bytes@ =~= before + color_bytes(color));
            i = i + 1;
        }
        assert(self.buf@.take(i as int) == self.buf@);
        bytes
    }
}

impl<const N: usize> LightingDriver for SplitShipDriver<N> {
    closed spec fn frame(&self) -> Seq<Rgb> {
        self.buf@
    }

    fn count(&self) -> (count: usize)
        ensures
            count == N,
    {
        N
    }

    fn frame_buffer(&mut self) -> (buffer: &mut [Rgb]) {
        &mut self.buf
    }
}

/// Unpacks a received frame into the frame buffer of the local strip.
pub fn receive_frame<D: LightingDriver>(driver: &mut D, bytes: &LightingFrameBytes)
    ensures
        final(driver).frame() == unpacked(old(driver).frame(), bytes@),
{
    let bytes = bytes.as_slice();
    let buf = driver.frame_buffer();
    let ghost before = buf@;
    let sent: usize = bytes.len() / 3;
    let count: usize = if sent < buf.len() {
        sent
    } else {
        buf.len()
    };
    let mut i: usize = 0;
    while i < count
        invariant
            i <= count <= before.len(),
            count <= sent,
            3 * sent <= bytes@.len() <= LIGHTING_FRAME_CAPACITY,
            buf@.len() == before.len(),
            forall|k: int|
                0 <= k < i ==> #[trigger] buf@[k] == (Rgb {
                    r: bytes@[3 * k],
                    g: bytes@[3 * k + 1],
                    b: bytes@[3 * k + 2],
                }),
            forall|k: int| i <= k < before.len() ==> buf@[k] == before[k],
        decreases count - i,
    {
        buf[i] = Rgb::new(bytes[i * 3], bytes[i * 3 + 1], bytes[i * 3 + 2]);
        i = i + 1;
    }
    assert(buf@ =~= unpacked(before, bytes@));
}

/// The far strip shows what was rendered: unpacking a packed frame gives its
/// colors back on the LEDs that both strips have, and leaves the others.
pub proof fn frames_cross_the_link(sent: Seq<Rgb>, shown: Seq<Rgb>, i: int)
    requires
        0 <= i < shown.len(),
    ensures
        unpacked(shown, packed(sent)).len() == shown.len(),
        unpacked(shown, packed(sent))[i] == (if i < sent.len() {
            sent[i]
        } else {
            shown[i]
        }),
{
    lemma_packed_at(sent, i);
}

/// The driver's frame has one color for each of its LEDs.
pub proof fn frame_has_a_color_per_led<const N: usize>(driver: SplitShipDriver<N>)
    ensures
        driver.frame().len() == N,
{
}

/// The frame of every strip that can be shipped fits a packed frame.
pub proof fn packed_frames_fit(frame: Seq<Rgb>)
    requires
        frame.len() <= SPLIT_LIGHTING_MAX_LEDS,
    ensures
        packed(frame).len() <= LIGHTING_FRAME_CAPACITY,
{
    lemma_packed_at(frame, 0);
}

/// The link carries red, green and blue of each LED, in this order and in the order of
/// the LEDs.
pub proof fn link_carries_red_green_blue(frame: Seq<Rgb>, i: int)
    requires
        0 <= i < frame.len(),
    ensures
        packed(frame).len() == 3 * frame.len(),
        packed(frame)[3 * i] == frame[i].r,
        packed(frame)[3 * i + 1] == frame[i].g,
        packed(frame)[3 * i + 2] == frame[i].b,
{
    lemma_packed_at(frame, i);
}

/// Every three bytes are the red, green and blue of an LED; an LED without three bytes
/// keeps its color, and the strip its length.
pub proof fn received_bytes_color_the_leds(frame: Seq<Rgb>, bytes: Seq<u8>, i: int)
    requires
        0 <= i < frame.len(),
    ensures
        unpacked(frame, bytes).len() == frame.len(),
        3 * i + 3 <= bytes.len() ==> unpacked(frame, bytes)[i].r == bytes[3 * i] && unpacked(
            frame,
            bytes,
        )[i].g == bytes[3 * i + 1] && unpacked(frame, bytes)[i].b == bytes[3 * i + 2],
        3 * i + 3 > bytes.len() ==> unpacked(frame, bytes)[i] == frame[i],
{
}

} // verus!
