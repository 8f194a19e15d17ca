//! What the renderers show, LED by LED.
use super::driver::Rgb;
use super::keymap_source::KeymapSource;
use super::overlay;
use super::overlay::{
    AnchorOverlay, CapsWordOverlay, KeyWashOverlay, LayerTriggerOverlay, ModifierKeyOverlay,
};
use super::renderer;
use super::renderer::{
    LayerKeyRenderer, LayerPaletteRenderer, LightingContext, LightingRenderer, SolidRenderer,
};
use vstd::prelude::*;

verus! {

/// `led` is one of `leds`.
pub open spec fn named(leds: Seq<u16>, led: int) -> bool {
    exists|k: int| 0 <= k < leds.len() && #[trigger] leds[k] == led
}

/// A solid strip shows one color on every LED.
pub proof fn solid_strip_has_one_color(
    shown: SolidRenderer,
    next: SolidRenderer,
    ctx: LightingContext,
    before: Seq<Rgb>,
    after: Seq<Rgb>,
    led: int,
)
    requires
        shown.renders(&next, ctx, before, after),
        0 <= led < before.len(),
    ensures
        after.len() == before.len(),
        after[led] == shown.color,
        next.color == shown.color,
{
}

/// A palette shows the color of the active layer on every LED, or the default color
/// where the palette has none for the layer.
pub proof fn palette_shows_the_active_layer<const MAX_LAYERS: usize>(
    shown: LayerPaletteRenderer<MAX_LAYERS>,
    next: LayerPaletteRenderer<MAX_LAYERS>,
    ctx: LightingContext,
    before: Seq<Rgb>,
    after: Seq<Rgb>,
    led: int,
)
    requires
        shown.renders(&next, ctx, before, after),
        0 <= led < before.len(),
    ensures
        after.len() == before.len(),
        ctx.layer < MAX_LAYERS ==> after[led] == shown.palette@[ctx.layer as int],
        ctx.layer >= MAX_LAYERS ==> after[led] == shown.default_color,
        next == shown,
{
}

/// The key at (`row`, `col`) is the last one with LED `led`, in reading order.
pub open spec fn is_last_with<const ROWS: usize, const COLS: usize>(
    led_map: [[Option<u16>; COLS]; ROWS],
    row: int,
    col: int,
    led: int,
) -> bool {
    &&& 0 <= row < ROWS && 0 <= col < COLS
    &&& has_led(led_map, row, col, led)
    &&& forall|r: int, c: int|
        0 <= r < ROWS && 0 <= c < COLS && (r > row || r == row && c > col) ==> !#[trigger] has_led(
            led_map,
            r,
            c,
            led,
        )
}

/// The key at (`row`, `col`) has LED `led`.
pub open spec fn has_led<const ROWS: usize, const COLS: usize>(
    led_map: [[Option<u16>; COLS]; ROWS],
    row: int,
    col: int,
    led: int,
) -> bool {
    led_map@[row]@[col] matches Some(own) && own == led
}

/// The last key of a row with an LED is found.
proof fn lemma_last_col<const ROWS: usize, const COLS: usize>(
    led_map: [[Option<u16>; COLS]; ROWS],
    row: int,
    col: int,
    end: int,
    led: int,
)
    requires
        0 <= col < end <= COLS,
        0 <= row < ROWS,
        has_led(led_map, row, col, led),
        forall|c: int| col < c < end ==> !#[trigger] has_led(led_map, row, c, led),
    ensures
        renderer::last_col(led_map@[row], end, led) == Some(col),
    decreases end,
{
    if col < end - 1 {
        assert(!has_led(led_map, row, end - 1, led));
        lemma_last_col(led_map, row, col, end - 1, led);
    }
}

/// A row without the LED has no such key.
proof fn lemma_no_col<const ROWS: usize, const COLS: usize>(
    led_map: [[Option<u16>; COLS]; ROWS],
    row: int,
    end: int,
    led: int,
)
    requires
        0 <= end <= COLS,
        0 <= row < ROWS,
        forall|c: int| 0 <= c < end ==> !#[trigger] has_led(led_map, row, c, led),
    ensures
        renderer::last_col(led_map@[row], end, led) is None,
    decreases end,
{
    if end > 0 {
        assert(!has_led(led_map, row, end - 1, led));
        lemma_no_col(led_map, row, end - 1, led);
    }
}

/// The last key with an LED is found.
proof fn lemma_last_key<const ROWS: usize, const COLS: usize>(
    led_map: [[Option<u16>; COLS]; ROWS],
    row: int,
    col: int,
    end: int,
    led: int,
)
    requires
        0 <= row < end <= ROWS,
        is_last_with(led_map, row, col, led),
    ensures
        renderer::last_key(led_map, end, led) == Some((row, col)),
    decreases end,
{
    if row == end - 1 {
        assert forall|c: int| col < c < COLS implies !#[trigger] has_led(
            led_map,
            row,
            c,
            led,
        ) by {}
        lemma_last_col(led_map, row, col, COLS as int, led);
    } else {
        assert forall|c: int| 0 <= c < COLS implies !#[trigger] has_led(
            led_map,
            end - 1,
            c,
            led,
        ) by {}
        lemma_no_col(led_map, end - 1, COLS as int, led);
        lemma_last_key(led_map, row, col, end - 1, led);
    }
}

/// Where no key has the LED none is found.
proof fn lemma_no_key<const ROWS: usize, const COLS: usize>(
    led_map: [[Option<u16>; COLS]; ROWS],
    end: int,
    led: int,
)
    requires
        0 <= end <= ROWS,
        forall|r: int, c: int|
            0 <= r < ROWS && 0 <= c < COLS ==> !#[trigger] has_led(led_map, r, c, led),
    ensures
        renderer::last_key(led_map, end, led) is None,
    decreases end,
{
    if end > 0 {
        assert forall|c: int| 0 <= c < COLS implies !#[trigger] has_led(
            led_map,
            end - 1,
            c,
            led,
        ) by {}
        lemma_no_col(led_map, end - 1, COLS as int, led);
        lemma_no_key(led_map, end - 1, led);
    }
}

/// A key shows the layer that defines it: the keymap is asked for the key at the row
/// and column of this half plus the offsets of the half, and the LED of the last key
/// that has it is in the palette's color for the answer, or in the fallthrough color if
/// there is no answer or none in the palette.
pub proof fn key_shows_the_layer_that_defines_it<
    'a,
    K: KeymapSource,
    const ROWS: usize,
    const COLS: usize,
    const MAX_LAYERS: usize,
>(
    shown: LayerKeyRenderer<'a, K, ROWS, COLS, MAX_LAYERS>,
    next: LayerKeyRenderer<'a, K, ROWS, COLS, MAX_LAYERS>,
    ctx: LightingContext,
    before: Seq<Rgb>,
    after: Seq<Rgb>,
    row: int,
    col: int,
    global_row: u8,
    global_col: u8,
    led: int,
)
    requires
        shown.renders(&next, ctx, before, after),
        is_last_with(shown.led_map, row, col, led),
        row < 256 && col < 256,
        global_row == row + shown.row_offset,
        global_col == col + shown.col_offset,
        0 <= led < before.len(),
    ensures
        after.len() == before.len(),
        exists|layer: Option<u8>|
            {
                &&& #[trigger] shown.keymap.may_own(ctx, global_row, global_col, layer)
                &&& match layer {
                    Some(l) => if l < MAX_LAYERS {
                        after[led] == shown.palette@[l as int]
                    } else {
                        after[led] == shown.fallthrough_color
                    },
                    None => after[led] == shown.fallthrough_color,
                }
            },
{
    lemma_last_key(shown.led_map, row, col, ROWS as int, led);
    assert(shown.led_done(ctx, ROWS as int, 0, led, before[led], after[led]));
    assert(shown.may_color(ctx, row, col, after[led]));
    let layer = choose|layer: Option<u8>|
        {
            &&& #[trigger] shown.keymap.may_own(
                ctx,
                renderer::global(row, shown.row_offset) as u8,
                renderer::global(col, shown.col_offset) as u8,
                layer,
            )
            &&& after[led] == shown.color_of(layer)
        };
    assert(shown.keymap.may_own(ctx, global_row, global_col, layer));
}

/// A key that alone has an LED shows the layer that defines it.
pub proof fn lone_key_shows_its_layer<
    'a,
    K: KeymapSource,
    const ROWS: usize,
    const COLS: usize,
    const MAX_LAYERS: usize,
>(
    shown: LayerKeyRenderer<'a, K, ROWS, COLS, MAX_LAYERS>,
    next: LayerKeyRenderer<'a, K, ROWS, COLS, MAX_LAYERS>,
    ctx: LightingContext,
    before: Seq<Rgb>,
    after: Seq<Rgb>,
    row: int,
    col: int,
    global_row: u8,
    global_col: u8,
    led: int,
)
    requires
        shown.renders(&next, ctx, before, after),
        0 <= row < ROWS && 0 <= col < COLS,
        shown.led_map@[row]@[col] matches Some(own) && own == led,
        forall|r: int, c: int|
            0 <= r < ROWS && 0 <= c < COLS && (r != row || c != col) ==> !#[trigger] has_led(
                shown.led_map,
                r,
                c,
                led,
            ),
        row < 256 && col < 256,
        global_row == row + shown.row_offset,
        global_col == col + shown.col_offset,
        0 <= led < before.len(),
    ensures
        exists|layer: Option<u8>|
            {
                &&& #[trigger] shown.keymap.may_own(ctx, global_row, global_col, layer)
                &&& match layer {
                    Some(l) => if l < MAX_LAYERS {
                        after[led] == shown.palette@[l as int]
                    } else {
                        after[led] == shown.fallthrough_color
                    },
                    None => after[led] == shown.fallthrough_color,
                }
            },
{
    key_shows_the_layer_that_defines_it(
        shown,
        next,
        ctx,
        before,
        after,
        row,
        col,
        global_row,
        global_col,
        led,
    );
}

/// An LED that no key has keeps its color, and the renderer stays as it is.
pub proof fn led_without_a_key_keeps_its_color<
    'a,
    K: KeymapSource,
    const ROWS: usize,
    const COLS: usize,
    const MAX_LAYERS: usize,
>(
    shown: LayerKeyRenderer<'a, K, ROWS, COLS, MAX_LAYERS>,
    next: LayerKeyRenderer<'a, K, ROWS, COLS, MAX_LAYERS>,
    ctx: LightingContext,
    before: Seq<Rgb>,
    after: Seq<Rgb>,
    led: int,
)
    requires
        shown.renders(&next, ctx, before, after),
        forall|r: int, c: int|
            0 <= r < ROWS && 0 <= c < COLS ==> !#[trigger] has_led(shown.led_map, r, c, led),
        0 <= led < before.len(),
    ensures
        after.len() == before.len(),
        after[led] == before[led],
        next == shown,
{
    lemma_no_key(shown.led_map, ROWS as int, led);
    assert(shown.led_done(ctx, ROWS as int, 0, led, before[led], after[led]));
}

/// Where a strip is accepted, the global coordinates of every key with an LED on it fit a
/// byte; a half that lies within 256 rows and columns is always accepted.
pub proof fn lit_keys_have_global_coordinates<
    'a,
    K: KeymapSource,
    const ROWS: usize,
    const COLS: usize,
    const MAX_LAYERS: usize,
>(shown: LayerKeyRenderer<'a, K, ROWS, COLS, MAX_LAYERS>, len: nat, row: int, col: int, led: u16)
    requires
        ROWS <= 256 && COLS <= 256,
        0 <= row < ROWS && 0 <= col < COLS,
        shown.led_map@[row]@[col] == Some(led),
        led < len,
    ensures
        shown.accepts(len) ==> row + shown.row_offset <= 255 && col + shown.col_offset <= 255,
        ROWS + shown.row_offset <= 256 && COLS + shown.col_offset <= 256 ==> shown.accepts(len),
{
    assert(shown.lit(len, row, col));
}

/// Anchors that are listed once have each channel times the gain, rounded down and at
/// most 255; LEDs that are no anchors show the frame below.
pub proof fn anchors_are_brightened<'a, R: LightingRenderer>(
    shown: AnchorOverlay<'a, R>,
    next: AnchorOverlay<'a, R>,
    ctx: LightingContext,
    before: Seq<Rgb>,
    after: Seq<Rgb>,
    led: int,
    k: int,
) -> (base: Seq<Rgb>)
    requires
        shown.renders(&next, ctx, before, after),
        0 <= led,
    ensures
        shown.inner.renders(&next.inner, ctx, before, base),
        after.len() == base.len(),
        led < base.len() && !named(shown.anchors@, led) ==> after[led] == base[led],
        led < base.len() && is_only(shown.anchors@, k, led) ==> {
            &&& is_brightened(base[led].r, after[led].r, shown.gain_num, shown.gain_den)
            &&& is_brightened(base[led].g, after[led].g, shown.gain_num, shown.gain_den)
            &&& is_brightened(base[led].b, after[led].b, shown.gain_num, shown.gain_den)
        },
        next.anchors == shown.anchors && next.gain_num == shown.gain_num && next.gain_den
            == shown.gain_den,
{
    let base = choose|base: Seq<Rgb>|
        {
            &&& #[trigger] shown.inner.renders(&next.inner, ctx, before, base)
            &&& after == overlay::anchored(base, shown.anchors@, shown.gain_num, shown.gain_den)
        };
    lemma_anchored(base, shown.anchors@, shown.gain_num, shown.gain_den, led, k);
    base
}

/// Entry `k` and no other of `leds` is `led`.
pub open spec fn is_only(leds: Seq<u16>, k: int, led: int) -> bool {
    &&& 0 <= k < leds.len()
    &&& leds[k] == led
    &&& forall|j: int| 0 <= j < leds.len() && j != k ==> #[trigger] leds[j] != led
}

/// `bright` is the greatest channel value of which `den` times are no more than `num`
/// times `channel`. A zero denominator counts as one.
pub open spec fn is_brightened(channel: u8, bright: u8, num: u16, den: u16) -> bool {
    let d = if den == 0 {
        1int
    } else {
        den as int
    };
    &&& bright * d <= channel * num
    &&& bright == 255 || channel * num < (bright + 1) * d
}

/// A boosted channel is a brightened one.
proof fn lemma_boosted(channel: u8, num: u16, den: u16)
    ensures
        is_brightened(channel, overlay::boosted_channel(channel, num, den), num, den),
{
    let d = if den == 0 {
        1int
    } else {
        den as int
    };
    let v = channel * num;
    let q = v / d;
    assert(0 <= v) by (nonlinear_arith)
        requires
            v == channel * num,
            0 <= channel,
            0 <= num,
    ;
    assert(0 <= q && q * d <= v < (q + 1) * d) by (nonlinear_arith)
        requires
            d > 0,
            v >= 0,
            q == v / d,
    ;
    if q > 255 {
        assert(255 * d <= q * d) by (nonlinear_arith)
            requires
                d > 0,
                q > 255,
        ;
    }
}

/// What anchoring does to one LED.
proof fn lemma_anchored(base: Seq<Rgb>, anchors: Seq<u16>, num: u16, den: u16, led: int, k: int)
    requires
        0 <= led,
    ensures
        ({
            let after = overlay::anchored(base, anchors, num, den);
            &&& after.len() == base.len()
            &&& led < base.len() && !named(anchors, led) ==> after[led] == base[led]
            &&& led < base.len() && is_only(anchors, k, led) ==> {
                &&& is_brightened(base[led].r, after[led].r, num, den)
                &&& is_brightened(base[led].g, after[led].g, num, den)
                &&& is_brightened(base[led].b, after[led].b, num, den)
            }
        }),
    decreases anchors.len(),
{
    if anchors.len() > 0 {
        let earlier = anchors.drop_last();
        let last = anchors.len() - 1;
        lemma_anchored(base, earlier, num, den, led, k);
        assert(anchors[last] == anchors.last());
        if named(earlier, led) {
            let j = choose|j: int| 0 <= j < earlier.len() && #[trigger] earlier[j] == led;
            assert(anchors[j] == led);
        }
        if is_only(anchors, k, led) {
            if k == last {
                if named(earlier, led) {
                    let j = choose|j: int| 0 <= j < earlier.len() && #[trigger] earlier[j] == led;
                    assert(anchors[j] == led);
                }
                if led < base.len() {
                    lemma_boosted(base[led].r, num, den);
                    lemma_boosted(base[led].g, num, den);
                    lemma_boosted(base[led].b, num, den);
                }
            } else {
                assert(anchors[last] != led);
                assert(is_only(earlier, k, led)) by {
                    assert(earlier[k] == anchors[k]);
                    assert forall|j: int| 0 <= j < earlier.len() && j != k implies
                        #[trigger] earlier[j] != led by {
                        assert(anchors[j] != led);
                    }
                }
            }
        }
        if !named(anchors, led) {
            assert(anchors[last] != led);
        }
    }
}

/// A wash shows its color on the LEDs that it names, and the frame below on the others.
pub proof fn wash_colors_its_leds<'a, R: LightingRenderer>(
    shown: KeyWashOverlay<'a, R>,
    next: KeyWashOverlay<'a, R>,
    ctx: LightingContext,
    before: Seq<Rgb>,
    after: Seq<Rgb>,
    led: int,
) -> (base: Seq<Rgb>)
    requires
        shown.renders(&next, ctx, before, after),
    ensures
        shown.inner.renders(&next.inner, ctx, before, base),
        after.len() == base.len(),
        0 <= led < base.len() ==> after[led] == (if named(shown.leds@, led) {
            shown.color
        } else {
            base[led]
        }),
        next.leds == shown.leds && next.color == shown.color,
{
    let base = choose|base: Seq<Rgb>|
        {
            &&& #[trigger] shown.inner.renders(&next.inner, ctx, before, base)
            &&& after == renderer::painted(base, shown.leds@, shown.color)
        };
    lemma_named(shown.leds@, led);
    base
}

/// Both ways to say that an LED is in a list agree.
proof fn lemma_named(leds: Seq<u16>, led: int)
    ensures
        renderer::listed(leds, led) == named(leds, led),
{
    if named(leds, led) {
        let k = choose|k: int| 0 <= k < leds.len() && #[trigger] leds[k] == led;
        assert(leds[k] == led);
    }
    if renderer::listed(leds, led) {
        let k = choose|k: int| 0 <= k < leds.len() && #[trigger] leds[k] == led;
        assert(leds[k] == led);
    }
}

/// Caps-word shows its color on the LEDs that it names while it is on, and the frame
/// below everywhere else.
pub proof fn caps_word_colors_its_leds_while_on<'a, R: LightingRenderer>(
    shown: CapsWordOverlay<'a, R>,
    next: CapsWordOverlay<'a, R>,
    ctx: LightingContext,
    before: Seq<Rgb>,
    after: Seq<Rgb>,
    led: int,
) -> (base: Seq<Rgb>)
    requires
        shown.renders(&next, ctx, before, after),
    ensures
        shown.inner.renders(&next.inner, ctx, before, base),
        after.len() == base.len(),
        0 <= led < base.len() ==> after[led] == (if ctx.caps_word && named(shown.leds@, led) {
            shown.color
        } else {
            base[led]
        }),
        next.leds == shown.leds && next.color == shown.color,
{
    let base = choose|base: Seq<Rgb>|
        {
            &&& #[trigger] shown.inner.renders(&next.inner, ctx, before, base)
            &&& after == (if ctx.caps_word {
                renderer::painted(base, shown.leds@, shown.color)
            } else {
                base
            })
        };
    lemma_named(shown.leds@, led);
    base
}

/// A modifier in effect shows the color on its LEDs: those of every entry that has a
/// modifier in common with those in effect. All other LEDs show the frame below.
pub proof fn modifiers_color_their_leds<'a, R: LightingRenderer>(
    shown: ModifierKeyOverlay<'a, R>,
    next: ModifierKeyOverlay<'a, R>,
    ctx: LightingContext,
    before: Seq<Rgb>,
    after: Seq<Rgb>,
    led: int,
) -> (base: Seq<Rgb>)
    requires
        shown.renders(&next, ctx, before, after),
    ensures
        shown.inner.renders(&next.inner, ctx, before, base),
        after.len() == base.len(),
        0 <= led < base.len() && (exists|e: int|
            0 <= e < shown.entries@.len() && ctx.modifiers.spec_bits() & (
            #[trigger] shown.entries@[e]).0.spec_bits() != 0 && named(shown.entries@[e].1@, led))
            ==> after[led] == shown.color,
        0 <= led < base.len() && (forall|e: int|
            0 <= e < shown.entries@.len() ==> ctx.modifiers.spec_bits() & (
            #[trigger] shown.entries@[e]).0.spec_bits() == 0 || !named(shown.entries@[e].1@, led))
            ==> after[led] == base[led],
        next.entries == shown.entries && next.color == shown.color,
{
    let active = ctx.modifiers.spec_bits();
    let entries = shown.entries@;
    let base = choose|base: Seq<Rgb>|
        {
            &&& #[trigger] shown.inner.renders(&next.inner, ctx, before, base)
            &&& after == overlay::modifiers_painted(base, entries, active, shown.color)
        };
    assert forall|e: int| 0 <= e < entries.len() implies renderer::listed(
        (#[trigger] entries[e]).1@,
        led,
    ) == named(entries[e].1@, led) by {
        lemma_named(entries[e].1@, led);
    }
    base
}

/// A trigger shows its color: on a layer, an LED is in the color of the last entry for
/// that layer and LED, and shows the frame below if there is none.
pub proof fn triggers_color_their_key<'a, R: LightingRenderer>(
    shown: LayerTriggerOverlay<'a, R>,
    next: LayerTriggerOverlay<'a, R>,
    ctx: LightingContext,
    before: Seq<Rgb>,
    after: Seq<Rgb>,
    led: int,
    e: int,
) -> (base: Seq<Rgb>)
    requires
        shown.renders(&next, ctx, before, after),
    ensures
        shown.inner.renders(&next.inner, ctx, before, base),
        after.len() == base.len(),
        0 <= led < base.len() && is_last_trigger(shown.entries@, e, ctx.layer, led) ==> after[led]
            == shown.entries@[e].2,
        0 <= led < base.len() && (forall|j: int|
            0 <= j < shown.entries@.len() ==> (#[trigger] shown.entries@[j]).0 != ctx.layer
                || shown.entries@[j].1 != led) ==> after[led] == base[led],
        next.entries == shown.entries,
{
    let base = choose|base: Seq<Rgb>|
        {
            &&& #[trigger] shown.inner.renders(&next.inner, ctx, before, base)
            &&& after == overlay::triggers_painted(base, shown.entries@, ctx.layer)
        };
    lemma_trigger(shown.entries@, e, ctx.layer, led);
    base
}

/// Entry `e` is the last one for `layer` and `led`.
pub open spec fn is_last_trigger(
    entries: Seq<(u8, u16, Rgb)>,
    e: int,
    layer: u8,
    led: int,
) -> bool {
    &&& 0 <= e < entries.len()
    &&& entries[e].0 == layer && entries[e].1 == led
    &&& forall|j: int|
        e < j < entries.len() ==> (#[trigger] entries[j]).0 != layer || entries[j].1 != led
}

/// The last trigger of an LED decides.
proof fn lemma_trigger(entries: Seq<(u8, u16, Rgb)>, e: int, layer: u8, led: int)
    ensures
        is_last_trigger(entries, e, layer, led) ==> overlay::trigger_color(entries, layer, led)
            == Some(entries[e].2),
        (forall|j: int|
            0 <= j < entries.len() ==> (#[trigger] entries[j]).0 != layer || entries[j].1 != led)
            ==> overlay::trigger_color(entries, layer, led) is None,
    decreases entries.len(),
{
    if entries.len() > 0 {
        let earlier = entries.drop_last();
        let last = entries.len() - 1;
        assert(entries[last] == entries.last());
        lemma_trigger(earlier, e, layer, led);
        if is_last_trigger(entries, e, layer, led) && e < last {
            assert(is_last_trigger(earlier, e, layer, led)) by {
                assert(earlier[e] == entries[e]);
                assert forall|j: int| e < j < earlier.len() implies (#[trigger] earlier[j]).0
                    != layer || earlier[j].1 != led by {
                    assert(entries[j].0 != layer || entries[j].1 != led);
                }
            }
            assert(entries[last].0 != layer || entries[last].1 != led);
        }
        if forall|j: int|
            0 <= j < entries.len() ==> (#[trigger] entries[j]).0 != layer || entries[j].1 != led {
            assert forall|j: int| 0 <= j < earlier.len() implies (#[trigger] earlier[j]).0 != layer
                || earlier[j].1 != led by {
                assert(entries[j].0 != layer || entries[j].1 != led);
            }
            assert(entries[last].0 != layer || entries[last].1 != led);
        }
    }
}

} // verus!
