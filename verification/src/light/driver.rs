//! Lighting driver trait and color type.
use vstd::prelude::*;

verus! {

/// A color.
#[derive(Clone, Copy, Debug, PartialEq, Eq, Structural)]
pub struct Rgb {
    pub r: u8,
    pub g: u8,
    pub b: u8,
}

impl Rgb {
    /// The color with these channels.
    pub fn new(r: u8, g: u8, b: u8) -> (color: Self)
        ensures
            color == (Rgb { r, g, b }),
    {
        Self { r, g, b }
    }
}

/// A strip of RGB LEDs with its frame buffer. The renderer fills the buffer in
/// place; pushing it to the hardware is up to the firmware.
pub trait LightingDriver {
    /// The frame buffer, one color per LED.
    spec fn frame(&self) -> Seq<Rgb>;

    /// How many LEDs the driver controls.
    fn count(&self) -> (count: usize)
        ensures
            count == self.frame().len(),
    ;

    /// The frame buffer, for writing.
    fn frame_buffer(&mut self) -> (buffer: &mut [Rgb])
        ensures
            buffer@ == old(self).frame(),
            final(self).frame() == final(buffer)@,
    ;
}

/// The frame buffer of a strip of `N` LEDs on this half. The firmware shows it
/// through the strip's hardware.
pub struct StripFrame<const N: usize> {
    pub colors: [Rgb; N],
}

impl<const N: usize> StripFrame<N> {
    /// A frame of black LEDs.
    pub fn new() -> (strip: Self)
        ensures
            strip.frame() == Seq::new(N as nat, |i: int| Rgb { r: 0, g: 0, b: 0 }),
    {
        let colors = [Rgb::new(0, 0, 0);N];
        assert(colors@ =~= Seq::new(N as nat, |i: int| Rgb { r: 0, g: 0, b: 0 }));
        Self { colors }
    }
}

impl<const N: usize> LightingDriver for StripFrame<N> {
    open spec fn frame(&self) -> Seq<Rgb> {
        self.colors@
    }

    fn count(&self) -> (count: usize)
        ensures
            count == N,
    {
        N
    }

    fn frame_buffer(&mut self) -> (buffer: &mut [Rgb]) {
        &mut self.colors
    }
}

} // verus!
