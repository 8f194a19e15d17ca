//! Renderers and the keyboard state that they read.
use super::driver::Rgb;
use super::keymap_source::KeymapSource;
use crate::event::input::ModifierCombination;
use vstd::prelude::*;

verus! {

/// The keyboard state that a frame is computed from.
#[derive(Clone, Copy, Debug, PartialEq, Eq)]
pub struct LightingContext {
    /// Index of the active layer.
    pub layer: u8,
    /// Modifiers in effect for the next key: held ones and armed one-shots.
    pub modifiers: ModifierCombination,
    /// The host's caps-lock indicator.
    pub caps_lock: bool,
    /// The host's num-lock indicator.
    pub num_lock: bool,
    /// The host's scroll-lock indicator.
    pub scroll_lock: bool,
    /// Caps-word, which shifts letters without the host's caps-lock.
    pub caps_word: bool,
}

impl Default for LightingContext {
    /// Layer 0, no modifiers, no indicators.
    fn default() -> (ctx: Self)
        ensures
            ctx.layer == 0,
            ctx.modifiers.spec_bits() == 0,
            !ctx.caps_lock && !ctx.num_lock && !ctx.scroll_lock && !ctx.caps_word,
    {
        Self {
            layer: 0,
            modifiers: ModifierCombination::from_bits(0),
            caps_lock: false,
            num_lock: false,
            scroll_lock: false,
            caps_word: false,
        }
    }
}

/// Computes a frame from keyboard state.
///
/// The length of the frame is the LED count of the strip. A renderer fills the
/// entries it cares about and leaves the others.
pub trait LightingRenderer: Sized {
    /// The renderer can render a frame of `len` LEDs.
    open spec fn accepts(&self, len: nat) -> bool {
        true
    }

    /// From the frame `before` the renderer may produce the frame `after`, and be
    /// `next` afterwards. A renderer that says nothing of its frames may produce
    /// any.
    open spec fn renders(
        &self,
        next: &Self,
        ctx: LightingContext,
        before: Seq<Rgb>,
        after: Seq<Rgb>,
    ) -> bool {
        true
    }

    /// Whether the renderer can render a frame of `len` LEDs.
    fn can_render(&self, len: usize) -> (ok: bool)
        ensures
            ok == self.accepts(len as nat),
    ;

    /// Renders into `frame`.
    fn render(&mut self, ctx: &LightingContext, frame: &mut [Rgb])
        requires
            old(self).accepts(old(frame)@.len()),
        ensures
            old(self).renders(final(self), *ctx, old(frame)@, final(frame)@),
            final(frame)@.len() == old(frame)@.len(),
            final(self).accepts(final(frame)@.len()),
    ;
}

/// A frame of `len` LEDs in one color.
pub open spec fn solid(len: nat, color: Rgb) -> Seq<Rgb> {
    Seq::new(len, |i: int| color)
}

/// `led` is in the list.
pub open spec fn listed(leds: Seq<u16>, led: int) -> bool {
    exists|k: int| 0 <= k < leds.len() && #[trigger] leds[k] == led
}

/// `frame` with the listed LEDs in `color`. Indices beyond the frame are
/// passed over.
pub open spec fn painted(frame: Seq<Rgb>, leds: Seq<u16>, color: Rgb) -> Seq<Rgb> {
    Seq::new(
        frame.len(),
        |i: int|
            if listed(leds, i) {
                color
            } else {
                frame[i]
            },
    )
}

/// Paints the whole frame.
fn fill(frame: &mut [Rgb], color: Rgb)
    ensures
        final(frame)@ == solid(old(frame)@.len(), color),
{
    let mut i: usize = 0;
    while i < frame.len()
        invariant
            i <= frame@.len(),
            frame@.len() == old(frame)@.len(),
            forall|k: int| 0 <= k < i ==> frame@[k] == color,
        decreases frame@.len() - i,
    {
        frame[i] = color;
        i = i + 1;
    }
    assert(frame@ =~= solid(old(frame)@.len(), color));
}

/// Paints the listed LEDs.
pub(crate) fn paint(frame: &mut [Rgb], leds: &[u16], color: Rgb)
    ensures
        final(frame)@ == painted(old(frame)@, leds@, color),
{
    let ghost before = frame@;
    let mut k: usize = 0;
    while k < leds.len()
        invariant
            k <= leds@.len(),
            before == old(frame)@,
            frame@ == painted(before, leds@.take(k as int), color),
        decreases leds@.len() - k,
    {
        let led: usize = leds[k] as usize;
        if led < frame.len() {
            frame[led] = color;
        }
        let ghost earlier = leds@.take(k as int);
        k = k + 1;
        proof {
            let now = leds@.take(k as int);
            assert forall|i: int| listed(now, i) == (listed(earlier, i) || i == leds@[k - 1]) by {
                if listed(earlier, i) {
                    let w = choose|w: int| 0 <= w < earlier.len() && #[trigger] earlier[w] == i;
                    assert(now[w] == i);
                }
                if i == leds@[k - 1] {
                    assert(now[k - 1] == i);
                }
                if listed(now, i) {
                    let w = choose|w: int| 0 <= w < now.len() && #[trigger] now[w] == i;
                    if w < k - 1 {
                        assert(earlier[w] == i);
                    }
                }
            }
            assert(frame@ =~= painted(before, now, color));
        }
    }
    assert(leds@.take(k as int) =~= leds@);
}

/// Paints every LED in one color.
pub struct SolidRenderer {
    pub color: Rgb,
}

impl SolidRenderer {
    /// A renderer of `color`.
    pub fn new(color: Rgb) -> (renderer: Self)
        ensures
            renderer.color == color,
    {
        Self { color }
    }
}

impl LightingRenderer for SolidRenderer {
    open spec fn accepts(&self, len: nat) -> bool {
        true
    }

    open spec fn renders(
        &self,
        next: &Self,
        ctx: LightingContext,
        before: Seq<Rgb>,
        after: Seq<Rgb>,
    ) -> bool {
        after == solid(before.len(), self.color) && next == self
    }

    fn can_render(&self, len: usize) -> (ok: bool) {
        true
    }

    fn render(&mut self, ctx: &LightingContext, frame: &mut [Rgb]) {
        fill(frame, self.color);
    }
}

/// The color of `layer`, or `other` beyond the palette.
pub open spec fn palette_color(palette: Seq<Rgb>, layer: u8, other: Rgb) -> Rgb {
    if layer < palette.len() {
        palette[layer as int]
    } else {
        other
    }
}

/// Paints the whole strip in the color of the active layer.
pub struct LayerPaletteRenderer<const MAX_LAYERS: usize> {
    /// One color per layer.
    pub palette: [Rgb; MAX_LAYERS],
    /// The color of the layers beyond the palette.
    pub default_color: Rgb,
}

impl<const MAX_LAYERS: usize> LayerPaletteRenderer<MAX_LAYERS> {
    /// A renderer with this palette.
    pub fn new(palette: [Rgb; MAX_LAYERS], default_color: Rgb) -> (renderer: Self)
        ensures
            renderer.palette == palette,
            renderer.default_color == default_color,
    {
        Self { palette, default_color }
    }
}

impl<const MAX_LAYERS: usize> LightingRenderer for LayerPaletteRenderer<MAX_LAYERS> {
    open spec fn accepts(&self, len: nat) -> bool {
        true
    }

    open spec fn renders(
        &self,
        next: &Self,
        ctx: LightingContext,
        before: Seq<Rgb>,
        after: Seq<Rgb>,
    ) -> bool {
        after == solid(
            before.len(),
            palette_color(self.palette@, ctx.layer, self.default_color),
        ) && next == self
    }

    fn can_render(&self, len: usize) -> (ok: bool) {
        true
    }

    fn render(&mut self, ctx: &LightingContext, frame: &mut [Rgb]) {
        let color = if (ctx.layer as usize) < MAX_LAYERS {
            self.palette[ctx.layer as usize]
        } else {
            self.default_color
        };
        fill(frame, color);
    }
}

/// The last of the first `end` columns of a row whose key has the LED `led`.
pub open spec fn last_col<const COLS: usize>(
    row: [Option<u16>; COLS],
    end: int,
    led: int,
) -> Option<int>
    decreases end,
{
    if end <= 0 {
        None
    } else if row@[end - 1] matches Some(own) && own == led {
        Some(end - 1)
    } else {
        last_col(row, end - 1, led)
    }
}

/// The last key in the first `end` rows, row by row, that has the LED `led`.
pub open spec fn last_key<const ROWS: usize, const COLS: usize>(
    led_map: [[Option<u16>; COLS]; ROWS],
    end: int,
    led: int,
) -> Option<(int, int)>
    decreases end,
{
    if end <= 0 {
        None
    } else {
        match last_col(led_map@[end - 1], COLS as int, led) {
            Some(col) => Some((end - 1, col)),
            None => last_key(led_map, end - 1, led),
        }
    }
}

/// A coordinate of this half in the coordinates of the whole keyboard.
pub open spec fn global(local: int, offset: u8) -> int {
    local % 256 + offset
}

/// Paints each key in the color of the layer that defines it.
///
/// `ROWS` and `COLS` are the matrix of this half, and the offsets its place in
/// the whole keyboard. A key without an LED is passed over.
pub struct LayerKeyRenderer<
    'a,
    K: KeymapSource,
    const ROWS: usize,
    const COLS: usize,
    const MAX_LAYERS: usize,
> {
    pub keymap: &'a K,
    pub led_map: [[Option<u16>; COLS]; ROWS],
    pub palette: [Rgb; MAX_LAYERS],
    /// The color of a key that is transparent on every active layer.
    pub fallthrough_color: Rgb,
    pub row_offset: u8,
    pub col_offset: u8,
}

impl<
    'a,
    K: KeymapSource,
    const ROWS: usize,
    const COLS: usize,
    const MAX_LAYERS: usize,
> LayerKeyRenderer<'a, K, ROWS, COLS, MAX_LAYERS> {
    /// A renderer for one half of the keyboard.
    pub fn new(
        keymap: &'a K,
        led_map: [[Option<u16>; COLS]; ROWS],
        palette: [Rgb; MAX_LAYERS],
        fallthrough_color: Rgb,
        row_offset: u8,
        col_offset: u8,
    ) -> (renderer: Self)
        ensures
            renderer.keymap == keymap,
            renderer.led_map == led_map,
            renderer.palette == palette,
            renderer.fallthrough_color == fallthrough_color,
            renderer.row_offset == row_offset,
            renderer.col_offset == col_offset,
    {
        Self { keymap, led_map, palette, fallthrough_color, row_offset, col_offset }
    }

    /// The key at (`row`, `col`) has an LED on a strip of `len` LEDs.
    pub open spec fn lit(&self, len: nat, row: int, col: int) -> bool {
        self.led_map@[row]@[col] matches Some(led) && led < len
    }

    /// The color of a key that `layer` owns.
    pub open spec fn color_of(&self, layer: Option<u8>) -> Rgb {
        match layer {
            Some(l) => palette_color(self.palette@, l, self.fallthrough_color),
            None => self.fallthrough_color,
        }
    }

    /// `color` is the color of the key at (`row`, `col`), by an answer of the
    /// keymap.
    pub open spec fn may_color(&self, ctx: LightingContext, row: int, col: int, color: Rgb) -> bool {
        exists|layer: Option<u8>|
            {
                &&& #[trigger] self.keymap.may_own(
                    ctx,
                    global(row, self.row_offset) as u8,
                    global(col, self.col_offset) as u8,
                    layer,
                )
                &&& color == self.color_of(layer)
            }
    }

    /// What is rendered at the LED `led` once the first `rows` rows and, of the
    /// next row, the first `cols` keys are done: where several keys share the
    /// LED, the last one decides, and an LED without a key keeps its color.
    pub open spec fn led_done(
        &self,
        ctx: LightingContext,
        rows: int,
        cols: int,
        led: int,
        before: Rgb,
        after: Rgb,
    ) -> bool {
        let in_row = if rows < ROWS {
            last_col(self.led_map@[rows], cols, led)
        } else {
            None
        };
        match in_row {
            Some(col) => self.may_color(ctx, rows, col, after),
            None => match last_key(self.led_map, rows, led) {
                Some(key) => self.may_color(ctx, key.0, key.1, after),
                None => after == before,
            },
        }
    }

    /// The color of the key at (`row`, `col`), from what the keymap answers.
    fn key_color(&self, ctx: &LightingContext, row: usize, col: usize) -> (color: Rgb)
        requires
            global(row as int, self.row_offset) <= u8::MAX,
            global(col as int, self.col_offset) <= u8::MAX,
        ensures
            self.may_color(*ctx, row as int, col as int, color),
    {
        let global_row: u8 = (row % 256) as u8 + self.row_offset;
        let global_col: u8 = (col % 256) as u8 + self.col_offset;
        match self.keymap.effective_layer_at_pos(ctx, global_row, global_col) {
            Some(layer) => if (layer as usize) < MAX_LAYERS {
                self.palette[layer as usize]
            } else {
                self.fallthrough_color
            },
            None => self.fallthrough_color,
        }
    }
}

impl<
    'a,
    K: KeymapSource,
    const ROWS: usize,
    const COLS: usize,
    const MAX_LAYERS: usize,
> LightingRenderer for LayerKeyRenderer<'a, K, ROWS, COLS, MAX_LAYERS> {
    /// The global coordinates of every lit key fit a byte.
    open spec fn accepts(&self, len: nat) -> bool {
        forall|row: int, col: int|
            0 <= row < ROWS && 0 <= col < COLS && #[trigger] self.lit(len, row, col) ==> global(
                row,
                self.row_offset,
            ) <= u8::MAX && global(col, self.col_offset) <= u8::MAX
    }

    open spec fn renders(
        &self,
        next: &Self,
        ctx: LightingContext,
        before: Seq<Rgb>,
        after: Seq<Rgb>,
    ) -> bool {
        &&& next == self
        &&& after.len() == before.len()
        &&& forall|led: int|
            0 <= led < after.len() ==> self.led_done(
                ctx,
                ROWS as int,
                0,
                led,
                before[led],
                #[trigger] after[led],
            )
    }

    fn can_render(&self, len: usize) -> (ok: bool) {
        let mut row: usize = 0;
        while row < ROWS
            invariant
                row <= ROWS,
                forall|r: int, c: int|
                    0 <= r < row && 0 <= c < COLS && #[trigger] self.lit(len as nat, r, c)
                        ==> global(r, self.row_offset) <= u8::MAX && global(c, self.col_offset)
                        <= u8::MAX,
            decreases ROWS - row,
        {
            let mut col: usize = 0;
            while col < COLS
                invariant
                    row < ROWS,
                    col <= COLS,
                    forall|r: int, c: int|
                        (0 <= r < row && 0 <= c < COLS || r == row && 0 <= c < col)
                            && #[trigger] self.lit(len as nat, r, c) ==> global(r, self.row_offset)
                            <= u8::MAX && global(c, self.col_offset) <= u8::MAX,
                decreases COLS - col,
            {
                if let Some(led) = self.led_map[row][col] {
                    if (led as usize) < len {
                        assert(self.lit(len as nat, row as int, col as int));
                        if row % 256 + self.row_offset as usize > 255 || col % 256
                            + self.col_offset as usize > 255 {
                            return false;
                        }
                    }
                }
                col = col + 1;
            }
            row = row + 1;
        }
        true
    }

    fn render(&mut self, ctx: &LightingContext, frame: &mut [Rgb]) {
        let ghost before = frame@;
        let mut row: usize = 0;
        while row < ROWS
            invariant
                row <= ROWS,
                *self == *old(self),
                old(self).accepts(before.len()),
                frame@.len() == before.len(),
                forall|led: int|
                    0 <= led < before.len() ==> self.led_done(
                        *ctx,
                        row as int,
                        0,
                        led,
                        before[led],
                        #[trigger] frame@[led],
                    ),
            decreases ROWS - row,
        {
            let mut col: usize = 0;
            while col < COLS
                invariant
                    row < ROWS,
                    col <= COLS,
                    *self == *old(self),
                    old(self).accepts(before.len()),
                    frame@.len() == before.len(),
                    forall|led: int|
                        0 <= led < before.len() ==> self.led_done(
                            *ctx,
                            row as int,
                            col as int,
                            led,
                            before[led],
                            #[trigger] frame@[led],
                        ),
                decreases COLS - col,
            {
                let ghost earlier = frame@;
                if let Some(own) = self.led_map[row][col] {
                    if (own as usize) < frame.len() {
                        assert(self.lit(before.len(), row as int, col as int));
                        let color = self.key_color(ctx, row, col);
                        frame[own as usize] = color;
                    }
                }
                col = col + 1;
                assert forall|led: int| 0 <= led < before.len() implies self.led_done(
                    *ctx,
                    row as int,
                    col as int,
                    led,
                    before[led],
                    #[trigger] frame@[led],
                ) by {
                    assert(self.led_done(
                        *ctx,
                        row as int,
                        col - 1,
                        led,
                        before[led],
                        earlier[led],
                    ));
                }
            }
            row = row + 1;
            assert forall|led: int| 0 <= led < before.len() implies self.led_done(
                *ctx,
                row as int,
                0,
                led,
                before[led],
                #[trigger] frame@[led],
            ) by {
                assert(self.led_done(
                    *ctx,
                    row - 1,
                    COLS as int,
                    led,
                    before[led],
                    frame@[led],
                ));
            }
        }
    }
}

} // verus!
