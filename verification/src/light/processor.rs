//! Lighting driven by keyboard events.
use super::driver::LightingDriver;
use super::renderer::{LightingContext, LightingRenderer};
use crate::event::input::ModifierEvent;
use crate::event::state;
use crate::event::state::{CapsWordEvent, LayerChangeEvent, LedIndicatorEvent};
use vstd::prelude::*;

verus! {

/// Renders a frame whenever an event has changed the keyboard state.
///
/// The handlers leave a new frame in the driver's buffer, for the firmware to
/// push to the hardware. The firmware also renders once at startup, because the
/// LEDs power on in an undefined state.
pub struct LightingProcessor<D: LightingDriver, R: LightingRenderer> {
    pub driver: D,
    pub renderer: R,
    pub ctx: LightingContext,
}

/// `after` is `before` with the state `ctx`, and with a frame that the renderer
/// made from it. The renderer can render the next frame too.
pub open spec fn rendered<D: LightingDriver, R: LightingRenderer>(
    before: LightingProcessor<D, R>,
    after: LightingProcessor<D, R>,
    ctx: LightingContext,
) -> bool {
    &&& after.ctx == ctx
    &&& before.renderer.renders(
        &after.renderer,
        ctx,
        before.driver.frame(),
        after.driver.frame(),
    )
    &&& after.driver.frame().len() == before.driver.frame().len()
    &&& after.ready()
}

/// The state with the layer of `event`.
pub open spec fn layer_changed(ctx: LightingContext, event: LayerChangeEvent) -> LightingContext {
    LightingContext { layer: event.0, ..ctx }
}

/// The state with the modifiers of `event`.
pub open spec fn modifiers_changed(ctx: LightingContext, event: ModifierEvent) -> LightingContext {
    LightingContext { modifiers: event.modifier, ..ctx }
}

/// The state with the lock indicators of `event`.
pub open spec fn indicators_changed(
    ctx: LightingContext,
    event: LedIndicatorEvent,
) -> LightingContext {
    LightingContext {
        caps_lock: state::caps_lock_in(event.0.spec_bits()),
        num_lock: state::num_lock_in(event.0.spec_bits()),
        scroll_lock: state::scroll_lock_in(event.0.spec_bits()),
        ..ctx
    }
}

/// The state with caps-word as in `event`.
pub open spec fn caps_word_changed(ctx: LightingContext, event: CapsWordEvent) -> LightingContext {
    LightingContext { caps_word: event.0, ..ctx }
}

impl<D: LightingDriver, R: LightingRenderer> LightingProcessor<D, R> {
    /// The renderer can render the driver's frame.
    pub open spec fn ready(&self) -> bool {
        self.renderer.accepts(self.driver.frame().len())
    }

    /// A processor in the state of a keyboard at rest.
    pub fn new(driver: D, renderer: R) -> (processor: Self)
        ensures
            processor.driver == driver,
            processor.renderer == renderer,
            processor.ctx.layer == 0,
            processor.ctx.modifiers.spec_bits() == 0,
            !processor.ctx.caps_lock && !processor.ctx.num_lock && !processor.ctx.scroll_lock
                && !processor.ctx.caps_word,
    {
        Self { driver, renderer, ctx: LightingContext::default() }
    }

    /// The renderer, for changing it.
    pub fn renderer_mut(&mut self) -> (renderer: &mut R)
        ensures
            *renderer == old(self).renderer,
            final(self).renderer == *final(renderer),
            final(self).driver == old(self).driver,
            final(self).ctx == old(self).ctx,
    {
        &mut self.renderer
    }

    /// Whether the renderer can render the driver's frame.
    pub fn is_ready(&self) -> (ready: bool)
        ensures
            ready == self.ready(),
    {
        self.renderer.can_render(self.driver.count())
    }

    /// Renders the current state into the driver's frame buffer.
    pub fn render(&mut self)
        requires
            old(self).ready(),
        ensures
            rendered(*old(self), *final(self), old(self).ctx),
    {
        let frame = self.driver.frame_buffer();
        self.renderer.render(&self.ctx, frame);
    }

    /// Takes over the active layer and renders.
    pub fn on_layer_change_event(&mut self, event: LayerChangeEvent)
        requires
            old(self).ready(),
        ensures
            rendered(
                *old(self),
                *final(self),
                layer_changed(old(self).ctx, event),
            ),
    {
        self.ctx.layer = event.0;
        self.render();
    }

    /// Takes over the modifiers and renders.
    pub fn on_modifier_event(&mut self, event: ModifierEvent)
        requires
            old(self).ready(),
        ensures
            rendered(
                *old(self),
                *final(self),
                modifiers_changed(old(self).ctx, event),
            ),
    {
        self.ctx.modifiers = event.modifier;
        self.render();
    }

    /// Takes over the host's lock indicators and renders.
    pub fn on_led_indicator_event(&mut self, event: LedIndicatorEvent)
        requires
            old(self).ready(),
        ensures
            rendered(
                *old(self),
                *final(self),
                indicators_changed(old(self).ctx, event),
            ),
    {
        self.ctx.caps_lock = event.0.caps_lock();
        self.ctx.num_lock = event.0.num_lock();
        self.ctx.scroll_lock = event.0.scroll_lock();
        self.render();
    }

    /// Takes over the caps-word state and renders.
    pub fn on_caps_word_event(&mut self, event: CapsWordEvent)
        requires
            old(self).ready(),
        ensures
            rendered(
                *old(self),
                *final(self),
                caps_word_changed(old(self).ctx, event),
            ),
    {
        self.ctx.caps_word = event.0;
        self.render();
    }
}

/// The frame is rendered from the state that the processor is left in, over the frame
/// that was there, by the renderer that was there.
pub proof fn frames_show_the_new_state<D: LightingDriver, R: LightingRenderer>(
    before: LightingProcessor<D, R>,
    after: LightingProcessor<D, R>,
    ctx: LightingContext,
)
    requires
        rendered(before, after, ctx),
    ensures
        after.ctx == ctx,
        before.renderer.renders(
            &after.renderer,
            after.ctx,
            before.driver.frame(),
            after.driver.frame(),
        ),
        after.driver.frame().len() == before.driver.frame().len(),
        after.renderer.accepts(after.driver.frame().len()),
{
}

/// Each event changes what it is about and leaves the rest of the state.
pub proof fn events_change_what_they_are_about(
    ctx: LightingContext,
    layer: LayerChangeEvent,
    modifiers: ModifierEvent,
    locks: LedIndicatorEvent,
    caps_word: CapsWordEvent,
)
    ensures
        ({
            let next = layer_changed(ctx, layer);
            &&& next.layer == layer.0
            &&& next.modifiers == ctx.modifiers && next.caps_word == ctx.caps_word
            &&& next.caps_lock == ctx.caps_lock && next.num_lock == ctx.num_lock
                && next.scroll_lock == ctx.scroll_lock
        }),
        ({
            let next = modifiers_changed(ctx, modifiers);
            &&& next.modifiers == modifiers.modifier
            &&& next.layer == ctx.layer && next.caps_word == ctx.caps_word
            &&& next.caps_lock == ctx.caps_lock && next.num_lock == ctx.num_lock
                && next.scroll_lock == ctx.scroll_lock
        }),
        ({
            let next = indicators_changed(ctx, locks);
            let bits = locks.0.spec_bits();
            &&& next.num_lock == (bits % 2 == 1)
            &&& next.caps_lock == (bits / 2 % 2 == 1)
            &&& next.scroll_lock == (bits / 4 % 2 == 1)
            &&& next.layer == ctx.layer && next.modifiers == ctx.modifiers && next.caps_word
                == ctx.caps_word
        }),
        ({
            let next = caps_word_changed(ctx, caps_word);
            &&& next.caps_word == caps_word.0
            &&& next.layer == ctx.layer && next.modifiers == ctx.modifiers
            &&& next.caps_lock == ctx.caps_lock && next.num_lock == ctx.num_lock
                && next.scroll_lock == ctx.scroll_lock
        }),
{
    state::indicators_are_binary_digits(locks.0.spec_bits());
}

} // verus!
