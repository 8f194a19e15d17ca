//! Renderers that draw over the frame of another renderer.
use super::driver::Rgb;
use super::renderer;
use super::renderer::{paint, LightingContext, LightingRenderer};
use crate::event::input::ModifierCombination;
use crate::math;
use vstd::prelude::*;

verus! {

/// A channel times `num / den`, rounded down, at most 255. A zero denominator
/// counts as one.
pub open spec fn boosted_channel(channel: u8, num: u16, den: u16) -> u8 {
    math::lesser(channel * num / math::greater(den as int, 1), 255) as u8
}

/// A color with every channel boosted, which keeps its hue.
pub open spec fn boosted(color: Rgb, num: u16, den: u16) -> Rgb {
    Rgb {
        r: boosted_channel(color.r, num, den),
        g: boosted_channel(color.g, num, den),
        b: boosted_channel(color.b, num, den),
    }
}

/// `frame` with each listed LED boosted once for each time it is listed.
/// Indices beyond the frame are passed over.
pub open spec fn anchored(frame: Seq<Rgb>, anchors: Seq<u16>, num: u16, den: u16) -> Seq<Rgb>
    decreases anchors.len(),
{
    if anchors.len() == 0 {
        frame
    } else {
        let before = anchored(frame, anchors.drop_last(), num, den);
        let led = anchors.last() as int;
        if led < before.len() {
            before.update(led, boosted(before[led], num, den))
        } else {
            before
        }
    }
}

/// The LED `led` belongs to a modifier that is in effect.
pub open spec fn modifier_lit(
    entries: Seq<(ModifierCombination, &[u16])>,
    active: u8,
    led: int,
) -> bool {
    exists|e: int|
        0 <= e < entries.len() && active & (#[trigger] entries[e]).0.spec_bits() != 0
            && renderer::listed(entries[e].1@, led)
}

/// `frame` with the LEDs of the modifiers in effect in `color`.
pub open spec fn modifiers_painted(
    frame: Seq<Rgb>,
    entries: Seq<(ModifierCombination, &[u16])>,
    active: u8,
    color: Rgb,
) -> Seq<Rgb> {
    Seq::new(
        frame.len(),
        |i: int|
            if modifier_lit(entries, active, i) {
                color
            } else {
                frame[i]
            },
    )
}

/// The color of the last entry for `layer` that names the LED `led`.
pub open spec fn trigger_color(entries: Seq<(u8, u16, Rgb)>, layer: u8, led: int) -> Option<Rgb>
    decreases entries.len(),
{
    if entries.len() == 0 {
        None
    } else if entries.last().0 == layer && entries.last().1 == led {
        Some(entries.last().2)
    } else {
        trigger_color(entries.drop_last(), layer, led)
    }
}

/// `frame` with the trigger keys of `layer` in their colors.
pub open spec fn triggers_painted(
    frame: Seq<Rgb>,
    entries: Seq<(u8, u16, Rgb)>,
    layer: u8,
) -> Seq<Rgb> {
    Seq::new(
        frame.len(),
        |i: int|
            match trigger_color(entries, layer, i) {
                Some(color) => color,
                None => frame[i],
            },
    )
}

/// A channel boosted; see [`boosted_channel`].
fn boost_channel(channel: u8, num: u16, den: u16) -> (boosted: u8)
    ensures
        boosted == boosted_channel(channel, num, den),
{
    let den: u32 = if den == 0 {
        1
    } else {
        den as u32
    };
    assert(0 <= channel * num <= 255 * 65535) by (nonlinear_arith)
        requires
            0 <= channel <= 255,
            0 <= num <= 65535,
    ;
    let scaled: u32 = channel as u32 * num as u32 / den;
    if scaled > 255 {
        255
    } else {
        scaled as u8
    }
}

/// Brightens some LEDs of another renderer's frame, such as those under the home
/// row.
///
/// Every channel is multiplied, so the hue stays and black stays black.
pub struct AnchorOverlay<'a, R: LightingRenderer> {
    pub inner: R,
    /// The LEDs to brighten.
    pub anchors: &'a [u16],
    /// Numerator of the multiplier.
    pub gain_num: u16,
    /// Denominator of the multiplier: 8 over 1 is eight times as bright, 3 over 2
    /// half as bright again.
    pub gain_den: u16,
}

impl<'a, R: LightingRenderer> AnchorOverlay<'a, R> {
    /// An overlay over `inner`.
    pub fn new(inner: R, anchors: &'a [u16], gain_num: u16, gain_den: u16) -> (overlay: Self)
        ensures
            overlay.inner == inner,
            overlay.anchors == anchors,
            overlay.gain_num == gain_num,
            overlay.gain_den == gain_den,
    {
        Self { inner, anchors, gain_num, gain_den }
    }
}

impl<'a, R: LightingRenderer> LightingRenderer for AnchorOverlay<'a, R> {
    open spec fn accepts(&self, len: nat) -> bool {
        self.inner.accepts(len)
    }

    open spec fn renders(
        &self,
        next: &Self,
        ctx: LightingContext,
        before: Seq<Rgb>,
        after: Seq<Rgb>,
    ) -> bool {
        &&& next.anchors == self.anchors
        &&& next.gain_num == self.gain_num
        &&& next.gain_den == self.gain_den
        &&& exists|base: Seq<Rgb>|
            {
                &&& #[trigger] self.inner.renders(&next.inner, ctx, before, base)
                &&& after == anchored(base, self.anchors@, self.gain_num, self.gain_den)
            }
    }

    fn can_render(&self, len: usize) -> (ok: bool) {
        self.inner.can_render(len)
    }

    fn render(&mut self, ctx: &LightingContext, frame: &mut [Rgb]) {
        self.inner.render(ctx, frame);
        let ghost base = frame@;
        let ghost inner = self.inner;
        let mut k: usize = 0;
        while k < self.anchors.len()
            invariant
                k <= self.anchors@.len(),
                self.anchors == old(self).anchors,
                self.gain_num == old(self).gain_num,
                self.gain_den == old(self).gain_den,
                self.inner == inner,
                frame@.len() == base.len(),
                frame@ == anchored(
                    base,
                    self.anchors@.take(k as int),
                    self.gain_num,
                    self.gain_den,
                ),
            decreases self.anchors@.len() - k,
        {
            let led: usize = self.anchors[k] as usize;
            assert(self.anchors@.take(k + 1).drop_last() == self.anchors@.take(k as int));
            if led < frame.len() {
                let old_color = frame[led];
                frame[led] = Rgb {
                    r: boost_channel(old_color.r, self.gain_num, self.gain_den),
                    g: boost_channel(old_color.g, self.gain_num, self.gain_den),
                    b: boost_channel(old_color.b, self.gain_num, self.gain_den),
                };
            }
            k = k + 1;
        }
        assert(self.anchors@.take(k as int) == self.anchors@);
    }
}

/// Sets some LEDs of another renderer's frame to a color, also where that frame
/// is black.
pub struct KeyWashOverlay<'a, R: LightingRenderer> {
    pub inner: R,
    pub leds: &'a [u16],
    pub color: Rgb,
}

impl<'a, R: LightingRenderer> KeyWashOverlay<'a, R> {
    /// An overlay over `inner`.
    pub fn new(inner: R, leds: &'a [u16], color: Rgb) -> (overlay: Self)
        ensures
            overlay.inner == inner,
            overlay.leds == leds,
            overlay.color == color,
    {
        Self { inner, leds, color }
    }
}

impl<'a, R: LightingRenderer> LightingRenderer for KeyWashOverlay<'a, R> {
    open spec fn accepts(&self, len: nat) -> bool {
        self.inner.accepts(len)
    }

    open spec fn renders(
        &self,
        next: &Self,
        ctx: LightingContext,
        before: Seq<Rgb>,
        after: Seq<Rgb>,
    ) -> bool {
        &&& next.leds == self.leds
        &&& next.color == self.color
        &&& exists|base: Seq<Rgb>|
            {
                &&& #[trigger] self.inner.renders(&next.inner, ctx, before, base)
                &&& after == renderer::painted(base, self.leds@, self.color)
            }
    }

    fn can_render(&self, len: usize) -> (ok: bool) {
        self.inner.can_render(len)
    }

    fn render(&mut self, ctx: &LightingContext, frame: &mut [Rgb]) {
        self.inner.render(ctx, frame);
        let ghost base = frame@;
        paint(frame, self.leds, self.color);
        assert(old(self).inner.renders(&self.inner, *ctx, old(frame)@, base));
    }
}

/// Lights the LEDs of the modifiers in effect, held or armed. Each entry pairs a
/// set of modifiers with LEDs, which light when any of the set is in effect.
pub struct ModifierKeyOverlay<'a, R: LightingRenderer> {
    pub inner: R,
    pub entries: &'a [(ModifierCombination, &'a [u16])],
    pub color: Rgb,
}

impl<'a, R: LightingRenderer> ModifierKeyOverlay<'a, R> {
    /// An overlay over `inner`.
    pub fn new(
        inner: R,
        entries: &'a [(ModifierCombination, &'a [u16])],
        color: Rgb,
    ) -> (overlay: Self)
        ensures
            overlay.inner == inner,
            overlay.entries == entries,
            overlay.color == color,
    {
        Self { inner, entries, color }
    }
}

impl<'a, R: LightingRenderer> LightingRenderer for ModifierKeyOverlay<'a, R> {
    open spec fn accepts(&self, len: nat) -> bool {
        self.inner.accepts(len)
    }

    open spec fn renders(
        &self,
        next: &Self,
        ctx: LightingContext,
        before: Seq<Rgb>,
        after: Seq<Rgb>,
    ) -> bool {
        &&& next.entries == self.entries
        &&& next.color == self.color
        &&& exists|base: Seq<Rgb>|
            {
                &&& #[trigger] self.inner.renders(&next.inner, ctx, before, base)
                &&& after == modifiers_painted(
                    base,
                    self.entries@,
                    ctx.modifiers.spec_bits(),
                    self.color,
                )
            }
    }

    fn can_render(&self, len: usize) -> (ok: bool) {
        self.inner.can_render(len)
    }

    fn render(&mut self, ctx: &LightingContext, frame: &mut [Rgb]) {
        self.inner.render(ctx, frame);
        let ghost base = frame@;
        let ghost inner = self.inner;
        let active: u8 = ctx.modifiers.into_bits();
        let mut e: usize = 0;
        assert(frame@ =~= modifiers_painted(base, self.entries@.take(0), active, self.color));
        while e < self.entries.len()
            invariant
                e <= self.entries@.len(),
                self.entries == old(self).entries,
                self.color == old(self).color,
                self.inner == inner,
                frame@.len() == base.len(),
                frame@ == modifiers_painted(
                    base,
                    self.entries@.take(e as int),
                    active,
                    self.color,
                ),
            decreases self.entries@.len() - e,
        {
            let entry = self.entries[e];
            if active & entry.0.into_bits() != 0 {
                paint(frame, entry.1, self.color);
            }
            proof {
                let earlier = self.entries@.take(e as int);
                let now = self.entries@.take(e + 1);
                let hit = active & entry.0.spec_bits() != 0;
                assert forall|i: int|
                    modifier_lit(now, active, i) == (modifier_lit(earlier, active, i) || hit
                        && renderer::listed(entry.1@, i)) by {
                    if modifier_lit(earlier, active, i) {
                        let w = choose|w: int|
                            0 <= w < earlier.len() && active & (
                            #[trigger] earlier[w]).0.spec_bits() != 0 && renderer::listed(
                                earlier[w].1@,
                                i,
                            );
                        assert(now[w] == earlier[w]);
                    }
                    if hit && renderer::listed(entry.1@, i) {
                        assert(now[e as int] == entry);
                    }
                    if modifier_lit(now, active, i) {
                        let w = choose|w: int|
                            0 <= w < now.len() && active & (#[trigger] now[w]).0.spec_bits() != 0
                                && renderer::listed(now[w].1@, i);
                        if w < e {
                            assert(earlier[w] == now[w]);
                        }
                    }
                }
                assert(frame@ =~= modifiers_painted(base, now, active, self.color));
            }
            e = e + 1;
        }
        assert(self.entries@.take(e as int) == self.entries@);
    }
}

/// Lights some LEDs while caps-word is on.
pub struct CapsWordOverlay<'a, R: LightingRenderer> {
    pub inner: R,
    pub leds: &'a [u16],
    pub color: Rgb,
}

impl<'a, R: LightingRenderer> CapsWordOverlay<'a, R> {
    /// An overlay over `inner`.
    pub fn new(inner: R, leds: &'a [u16], color: Rgb) -> (overlay: Self)
        ensures
            overlay.inner == inner,
            overlay.leds == leds,
            overlay.color == color,
    {
        Self { inner, leds, color }
    }
}

impl<'a, R: LightingRenderer> LightingRenderer for CapsWordOverlay<'a, R> {
    open spec fn accepts(&self, len: nat) -> bool {
        self.inner.accepts(len)
    }

    open spec fn renders(
        &self,
        next: &Self,
        ctx: LightingContext,
        before: Seq<Rgb>,
        after: Seq<Rgb>,
    ) -> bool {
        &&& next.leds == self.leds
        &&& next.color == self.color
        &&& exists|base: Seq<Rgb>|
            {
                &&& #[trigger] self.inner.renders(&next.inner, ctx, before, base)
                &&& after == (if ctx.caps_word {
                    renderer::painted(base, self.leds@, self.color)
                } else {
                    base
                })
            }
    }

    fn can_render(&self, len: usize) -> (ok: bool) {
        self.inner.can_render(len)
    }

    fn render(&mut self, ctx: &LightingContext, frame: &mut [Rgb]) {
        self.inner.render(ctx, frame);
        let ghost base = frame@;
        if ctx.caps_word {
            paint(frame, self.leds, self.color);
        }
        assert(old(self).inner.renders(&self.inner, *ctx, old(frame)@, base));
    }
}

/// Lights the key that switched to the active layer. Each entry gives a layer,
/// the LED of its trigger key and a color.
pub struct LayerTriggerOverlay<'a, R: LightingRenderer> {
    pub inner: R,
    pub entries: &'a [(u8, u16, Rgb)],
}

impl<'a, R: LightingRenderer> LayerTriggerOverlay<'a, R> {
    /// An overlay over `inner`.
    pub fn new(inner: R, entries: &'a [(u8, u16, Rgb)]) -> (overlay: Self)
        ensures
            overlay.inner == inner,
            overlay.entries == entries,
    {
        Self { inner, entries }
    }
}

impl<'a, R: LightingRenderer> LightingRenderer for LayerTriggerOverlay<'a, R> {
    open spec fn accepts(&self, len: nat) -> bool {
        self.inner.accepts(len)
    }

    open spec fn renders(
        &self,
        next: &Self,
        ctx: LightingContext,
        before: Seq<Rgb>,
        after: Seq<Rgb>,
    ) -> bool {
        &&& next.entries == self.entries
        &&& exists|base: Seq<Rgb>|
            {
                &&& #[trigger] self.inner.renders(&next.inner, ctx, before, base)
                &&& after == triggers_painted(base, self.entries@, ctx.layer)
            }
    }

    fn can_render(&self, len: usize) -> (ok: bool) {
        self.inner.can_render(len)
    }

    fn render(&mut self, ctx: &LightingContext, frame: &mut [Rgb]) {
        self.inner.render(ctx, frame);
        let ghost base = frame@;
        let ghost inner = self.inner;
        let mut e: usize = 0;
        assert(frame@ =~= triggers_painted(base, self.entries@.take(0), ctx.layer));
        while e < self.entries.len()
            invariant
                e <= self.entries@.len(),
                self.entries == old(self).entries,
                self.inner == inner,
                frame@.len() == base.len(),
                frame@ == triggers_painted(base, self.entries@.take(e as int), ctx.layer),
            decreases self.entries@.len() - e,
        {
            let (layer, led, color): (u8, u16, Rgb) = self.entries[e];
            if ctx.layer == layer && (led as usize) < frame.len() {
                frame[led as usize] = color;
            }
            proof {
                assert(self.entries@.take(e + 1).drop_last() == self.entries@.take(e as int));
                assert(frame@ =~= triggers_painted(base, self.entries@.take(e + 1), ctx.layer));
            }
            e = e + 1;
        }
        assert(self.entries@.take(e as int) == self.entries@);
    }
}

/// A frame keeps its length and the LEDs that are no anchors.
pub proof fn other_leds_keep_their_color(
    frame: Seq<Rgb>,
    anchors: Seq<u16>,
    num: u16,
    den: u16,
    led: int,
)
    requires
        0 <= led < frame.len(),
    ensures
        anchored(frame, anchors, num, den).len() == frame.len(),
        !renderer::listed(anchors, led) ==> anchored(frame, anchors, num, den)[led] == frame[led],
    decreases anchors.len(),
{
    if anchors.len() > 0 {
        other_leds_keep_their_color(frame, anchors.drop_last(), num, den, led);
        if !renderer::listed(anchors, led) {
            assert(anchors[anchors.len() - 1] != led);
            assert forall|k: int| 0 <= k < anchors.drop_last().len() implies #[trigger]
                anchors.drop_last()[k] != led by {
                assert(anchors[k] != led);
            }
        }
    }
}

/// A gain of one changes nothing.
pub proof fn unit_gain_changes_nothing(frame: Seq<Rgb>, anchors: Seq<u16>, gain: u16)
    requires
        gain > 0,
    ensures
        anchored(frame, anchors, gain, gain) == frame,
    decreases anchors.len(),
{
    if anchors.len() > 0 {
        unit_gain_changes_nothing(frame, anchors.drop_last(), gain);
        assert forall|channel: u8| #[trigger] boosted_channel(channel, gain, gain) == channel by {
            assert(channel * gain / (gain as int) == channel) by (nonlinear_arith)
                requires
                    gain > 0,
            ;
        }
        let led = anchors.last() as int;
        assert(anchored(frame, anchors, gain, gain) =~= frame);
    }
}

/// A channel that is off stays off, whatever the gain.
pub proof fn black_stays_black(num: u16, den: u16)
    ensures
        boosted_channel(0, num, den) == 0,
        boosted(Rgb { r: 0, g: 0, b: 0 }, num, den) == (Rgb { r: 0, g: 0, b: 0 }),
{
    let d = math::greater(den as int, 1);
    assert(0 * num == 0);
    assert(0int / d == 0) by (nonlinear_arith)
        requires
            d >= 1,
    ;
}

/// Boosting keeps the order of the channels: the stronger of two channels stays
/// at least as strong as the other.
pub proof fn boosting_keeps_the_order_of_channels(weaker: u8, stronger: u8, num: u16, den: u16)
    requires
        weaker <= stronger,
    ensures
        boosted_channel(weaker, num, den) <= boosted_channel(stronger, num, den),
{
    let d = math::greater(den as int, 1);
    assert(0 <= weaker * num <= stronger * num) by (nonlinear_arith)
        requires
            0 <= weaker <= stronger,
            0 <= num,
    ;
    assert(0 <= weaker * num / d <= stronger * num / d) by (nonlinear_arith)
        requires
            0 <= weaker * num <= stronger * num,
            d >= 1,
    ;
}

/// Without a modifier in effect, the modifier overlay shows the frame below it,
/// and so does the trigger overlay on a layer without triggers.
pub proof fn idle_overlays_are_transparent(
    frame: Seq<Rgb>,
    modifiers: Seq<(ModifierCombination, &[u16])>,
    triggers: Seq<(u8, u16, Rgb)>,
    layer: u8,
    color: Rgb,
)
    requires
        forall|e: int| 0 <= e < triggers.len() ==> (#[trigger] triggers[e]).0 != layer,
    ensures
        modifiers_painted(frame, modifiers, 0, color) == frame,
        triggers_painted(frame, triggers, layer) == frame,
{
    assert forall|i: int| !modifier_lit(modifiers, 0, i) by {
        assert forall|bits: u8| 0u8 & bits == 0 by {
            assert(0u8 & bits == 0) by (bit_vector);
        }
    }
    assert(modifiers_painted(frame, modifiers, 0, color) =~= frame);
    assert forall|i: int| trigger_color(triggers, layer, i) is None by {
        lemma_no_trigger(triggers, layer, i);
    }
    assert(triggers_painted(frame, triggers, layer) =~= frame);
}

/// No entry for the layer, no color.
proof fn lemma_no_trigger(entries: Seq<(u8, u16, Rgb)>, layer: u8, led: int)
    requires
        forall|e: int| 0 <= e < entries.len() ==> (#[trigger] entries[e]).0 != layer,
    ensures
        trigger_color(entries, layer, led) is None,
    decreases entries.len(),
{
    if entries.len() > 0 {
        assert(entries[entries.len() - 1].0 != layer);
        assert forall|e: int| 0 <= e < entries.drop_last().len() implies (
        #[trigger] entries.drop_last()[e]).0 != layer by {
            assert(entries[e].0 != layer);
        }
        lemma_no_trigger(entries.drop_last(), layer, led);
    }
}

/// Painting twice in one color is painting once.
pub proof fn painting_twice_is_painting_once(frame: Seq<Rgb>, leds: Seq<u16>, color: Rgb)
    ensures
        renderer::painted(renderer::painted(frame, leds, color), leds, color) == renderer::painted(
            frame,
            leds,
            color,
        ),
{
    assert(renderer::painted(renderer::painted(frame, leds, color), leds, color)
        =~= renderer::painted(frame, leds, color));
}

} // verus!
