//! Lighting: renderers, overlays, the processor and the split link.
use rmk::event::input::{ModifierCombination, ModifierEvent};
use rmk::event::state::{CapsWordEvent, LayerChangeEvent, LedIndicator, LedIndicatorEvent};
use rmk::light::driver::{LightingDriver, Rgb, StripFrame};
use rmk::light::keymap_source::{KeyAction, KeymapSource, StaticKeymapView};
use rmk::light::overlay::{AnchorOverlay, CapsWordOverlay, KeyWashOverlay, LayerTriggerOverlay, ModifierKeyOverlay};
use rmk::light::processor::LightingProcessor;
use rmk::light::renderer::{
    LayerKeyRenderer, LayerPaletteRenderer, LightingContext, LightingRenderer, SolidRenderer,
};
use rmk::light::split_link::{receive_frame, LightingFrameBytes, SplitShipDriver, LIGHTING_FRAME_CAPACITY};

const RED: Rgb = Rgb { r: 16, g: 0, b: 0 };
const GREEN: Rgb = Rgb { r: 0, g: 16, b: 0 };
const BLUE: Rgb = Rgb { r: 0, g: 0, b: 16 };
const BLACK: Rgb = Rgb { r: 0, g: 0, b: 0 };

fn on_layer(layer: u8) -> LightingContext {
    LightingContext { layer, ..LightingContext::default() }
}

fn shown<R: LightingRenderer>(renderer: &mut R, ctx: &LightingContext, before: &[Rgb]) -> Vec<Rgb> {
    let mut frame = before.to_vec();
    assert!(renderer.can_render(frame.len()));
    renderer.render(ctx, &mut frame);
    frame
}

#[test]
fn solid_fills_the_strip() {
    assert_eq!(shown(&mut SolidRenderer::new(RED), &on_layer(3), &[BLACK; 3]), vec![RED; 3]);
    assert!(shown(&mut SolidRenderer::new(RED), &on_layer(3), &[]).is_empty());
}

#[test]
fn palette_follows_the_layer() {
    let mut r = LayerPaletteRenderer::new([RED, GREEN], BLUE);
    assert_eq!(shown(&mut r, &on_layer(0), &[BLACK; 2]), vec![RED; 2]);
    assert_eq!(shown(&mut r, &on_layer(1), &[BLACK; 2]), vec![GREEN; 2]);
    assert_eq!(shown(&mut r, &on_layer(2), &[BLACK; 2]), vec![BLUE; 2]);
}

const T: KeyAction = KeyAction::Transparent;
const LAYERS: [[[KeyAction; 2]; 2]; 3] = [
    [[KeyAction::Code(4), KeyAction::Code(5)], [T, KeyAction::No]],
    [[T, KeyAction::Code(6)], [T, T]],
    [[KeyAction::No, T], [KeyAction::Code(7), T]],
];

#[test]
fn static_keymap_falls_through_to_the_default_layer() {
    let view = StaticKeymapView::new(&LAYERS, 0);
    let at = |layer: u8, row: u8, col: u8| view.effective_layer_at_pos(&on_layer(layer), row, col);
    assert_eq!(at(1, 0, 0), Some(0));
    assert_eq!(at(1, 0, 1), Some(1));
    assert_eq!(at(2, 0, 0), Some(2));
    assert_eq!(at(2, 1, 0), Some(2));
    assert_eq!(at(0, 1, 0), None);
    assert_eq!(at(1, 1, 0), None);
    assert_eq!(at(9, 0, 0), Some(0));
    assert_eq!(at(0, 2, 0), None);
    assert_eq!(at(0, 0, 2), None);
}

#[test]
fn keys_show_their_layer() {
    let view = StaticKeymapView::new(&LAYERS, 0);
    let led_map = [[Some(0), Some(1)], [Some(2), None]];
    let mut r = LayerKeyRenderer::new(&view, led_map, [RED, GREEN], BLUE, 0, 0);
    assert_eq!(shown(&mut r, &on_layer(1), &[BLACK; 4]), vec![RED, GREEN, BLUE, BLACK]);
    // Layer 2 is beyond the palette.
    assert_eq!(shown(&mut r, &on_layer(2), &[BLACK; 4]), vec![BLUE, RED, BLUE, BLACK]);
    // An LED beyond the strip is passed over.
    assert_eq!(shown(&mut r, &on_layer(1), &[BLACK; 1]), vec![RED]);
}

#[test]
fn half_keyboards_use_offsets() {
    let view = StaticKeymapView::new(&LAYERS, 0);
    let mut r = LayerKeyRenderer::new(&view, [[Some(0), Some(0)]], [RED, GREEN], BLUE, 1, 0);
    // Both keys have LED 0: the later one, which layer 0 owns, decides.
    assert_eq!(shown(&mut r, &on_layer(0), &[BLACK]), vec![RED]);
    let far = LayerKeyRenderer::new(&view, [[None, Some(0)]], [RED, GREEN], BLUE, 0, 255);
    assert!(!far.can_render(1));
    assert!(far.can_render(0));
}

#[test]
fn anchors_are_brightened_with_their_hue() {
    let inner = SolidRenderer::new(Rgb::new(16, 0, 3));
    let mut r = AnchorOverlay::new(inner, &[1, 9], 3, 2);
    assert_eq!(
        shown(&mut r, &on_layer(0), &[BLACK; 2]),
        vec![Rgb::new(16, 0, 3), Rgb::new(24, 0, 4)]
    );
    let mut r = AnchorOverlay::new(SolidRenderer::new(Rgb::new(40, 0, 31)), &[0], 8, 0);
    assert_eq!(shown(&mut r, &on_layer(0), &[BLACK]), vec![Rgb::new(255, 0, 248)]);
    let mut r = AnchorOverlay::new(SolidRenderer::new(RED), &[0], 7, 7);
    assert_eq!(shown(&mut r, &on_layer(0), &[BLACK]), vec![RED]);
    let mut r = AnchorOverlay::new(SolidRenderer::new(BLACK), &[0], 200, 1);
    assert_eq!(shown(&mut r, &on_layer(0), &[RED]), vec![BLACK]);
}

#[test]
fn wash_paints_listed_leds() {
    let mut r = KeyWashOverlay::new(SolidRenderer::new(BLACK), &[0, 2, 70], GREEN);
    assert_eq!(shown(&mut r, &on_layer(0), &[RED; 4]), vec![GREEN, BLACK, GREEN, BLACK]);
}

#[test]
fn modifiers_light_their_keys() {
    let left: [u16; 1] = [0];
    let shifts: [u16; 2] = [1, 2];
    let entries: [(ModifierCombination, &[u16]); 2] = [
        (ModifierCombination::from_bits(0b0001), &left),
        (ModifierCombination::from_bits(0b0110), &shifts),
    ];
    let mut r = ModifierKeyOverlay::new(SolidRenderer::new(BLACK), &entries, BLUE);
    let held = |bits: u8| LightingContext {
        modifiers: ModifierCombination::from_bits(bits),
        ..LightingContext::default()
    };
    assert_eq!(shown(&mut r, &held(0), &[RED; 3]), vec![BLACK; 3]);
    assert_eq!(shown(&mut r, &held(0b0001), &[RED; 3]), vec![BLUE, BLACK, BLACK]);
    assert_eq!(shown(&mut r, &held(0b0100), &[RED; 3]), vec![BLACK, BLUE, BLUE]);
}

#[test]
fn caps_word_lights_while_on() {
    let mut r = CapsWordOverlay::new(SolidRenderer::new(BLACK), &[1], GREEN);
    assert_eq!(shown(&mut r, &on_layer(0), &[RED; 2]), vec![BLACK; 2]);
    let on = LightingContext { caps_word: true, ..LightingContext::default() };
    assert_eq!(shown(&mut r, &on, &[RED; 2]), vec![BLACK, GREEN]);
}

#[test]
fn layer_triggers_light_their_key() {
    let entries = [(1, 0, RED), (2, 1, GREEN), (1, 0, BLUE), (1, 40, RED)];
    let mut r = LayerTriggerOverlay::new(SolidRenderer::new(BLACK), &entries);
    assert_eq!(shown(&mut r, &on_layer(0), &[RED; 2]), vec![BLACK; 2]);
    assert_eq!(shown(&mut r, &on_layer(1), &[RED; 2]), vec![BLUE, BLACK]);
    assert_eq!(shown(&mut r, &on_layer(2), &[RED; 2]), vec![BLACK, GREEN]);
}

#[test]
fn processor_renders_on_events() {
    let driver = SplitShipDriver::<2>::new();
    let mut p = LightingProcessor::new(driver, LayerPaletteRenderer::new([RED, GREEN], BLUE));
    assert!(p.is_ready());
    p.render();
    assert_eq!(p.driver.frame_buffer(), &[RED, RED]);
    p.on_layer_change_event(LayerChangeEvent(1));
    assert_eq!(p.driver.frame_buffer(), &[GREEN, GREEN]);
    p.renderer_mut().palette[1] = BLUE;
    p.on_modifier_event(ModifierEvent { modifier: ModifierCombination::from_bits(2) });
    assert_eq!(p.driver.frame_buffer(), &[BLUE, BLUE]);
    assert_eq!((p.ctx.layer, p.ctx.modifiers.into_bits()), (1, 2));
    p.on_led_indicator_event(LedIndicatorEvent(LedIndicator::from_bits(0b101)));
    assert_eq!((p.ctx.num_lock, p.ctx.caps_lock, p.ctx.scroll_lock), (true, false, true));
    p.on_caps_word_event(CapsWordEvent(true));
    assert!(p.ctx.caps_word && p.ctx.num_lock);
}

#[test]
fn frames_cross_the_split_link() {
    let mut sender = SplitShipDriver::<2>::new();
    sender.frame_buffer().copy_from_slice(&[Rgb::new(1, 2, 3), Rgb::new(4, 5, 6)]);
    let bytes = sender.pack();
    assert_eq!(bytes.as_slice(), &[1, 2, 3, 4, 5, 6]);
    assert_eq!(bytes.clone().as_slice(), bytes.as_slice());
    let mut longer = SplitShipDriver::<3>::new();
    longer.frame_buffer()[2] = RED;
    receive_frame(&mut longer, &bytes);
    assert_eq!(longer.frame_buffer(), &[Rgb::new(1, 2, 3), Rgb::new(4, 5, 6), RED]);
    let mut shorter = SplitShipDriver::<1>::new();
    receive_frame(&mut shorter, &bytes);
    assert_eq!(shorter.frame_buffer(), &[Rgb::new(1, 2, 3)]);
    assert_eq!(longer.count(), 3);
}

#[test]
fn strip_shows_what_it_receives() {
    let mut sender = SplitShipDriver::<2>::new();
    sender.frame_buffer()[1] = GREEN;
    assert_eq!((sender.count(), sender.pack().as_slice().len()), (2, 6));
    let mut strip = StripFrame::<2>::new();
    assert_eq!((strip.count(), strip.colors), (2, [BLACK; 2]));
    receive_frame(&mut strip, &sender.pack());
    assert_eq!(strip.colors, [BLACK, GREEN]);
}

#[test]
fn incomplete_colors_are_dropped() {
    let mut bytes = LightingFrameBytes::new();
    for b in [7, 8, 9, 10] {
        assert_eq!(bytes.push(b), Ok(()));
    }
    let mut d = SplitShipDriver::<2>::new();
    receive_frame(&mut d, &bytes);
    assert_eq!(d.frame_buffer(), &[Rgb::new(7, 8, 9), BLACK]);
}

#[test]
fn full_strip_fits_a_packed_frame() {
    let mut bytes = SplitShipDriver::<32>::new().pack();
    assert_eq!(bytes.as_slice().len(), LIGHTING_FRAME_CAPACITY);
    assert_eq!(bytes.push(1), Err(1));
}

#[test]
fn boosting_keeps_the_order_of_channels() {
    let mut r = AnchorOverlay::new(SolidRenderer::new(Rgb::new(10, 11, 200)), &[0, 0], 3, 2);
    // Listed twice, boosted twice: 10 -> 15 -> 22, 11 -> 16 -> 24, 200 -> 255 -> 255.
    assert_eq!(shown(&mut r, &on_layer(0), &[BLACK]), vec![Rgb::new(22, 24, 255)]);
}
