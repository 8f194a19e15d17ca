//! Which layer owns a key.
use super::renderer::LightingContext;
use vstd::prelude::*;

verus! {

/// What a key does on one layer, as far as lighting is concerned.
#[derive(Clone, Copy, Debug, PartialEq, Eq, Structural)]
pub enum KeyAction {
    /// Nothing; lower layers are shadowed.
    No,
    /// Whatever the layer below does.
    Transparent,
    /// The action with this code.
    Code(u16),
}

/// Tells which layer defines the action of a key right now.
pub trait KeymapSource {
    /// `layer` is an answer that the source may give for the key at (`row`,
    /// `col`). A source with state of its own may answer differently from call
    /// to call, and one that says nothing of its answers may give any.
    open spec fn may_own(
        &self,
        ctx: LightingContext,
        row: u8,
        col: u8,
        layer: Option<u8>,
    ) -> bool {
        true
    }

    /// The layer in charge of the key at (`row`, `col`), with transparent layers
    /// passed over; nothing if every active layer is transparent there.
    fn effective_layer_at_pos(&self, ctx: &LightingContext, row: u8, col: u8) -> (layer: Option<
        u8,
    >)
        ensures
            self.may_own(*ctx, row, col, layer),
    ;
}

/// A keymap without activation state, for a half of a split keyboard that knows
/// the active layer only from the other half.
///
/// `ROW` and `COL` span the whole keyboard, not one half.
pub struct StaticKeymapView<'a, const ROW: usize, const COL: usize, const NUM_LAYER: usize> {
    pub layers: &'a [[[KeyAction; COL]; ROW]; NUM_LAYER],
    pub default_layer: u8,
}

impl<
    'a,
    const ROW: usize,
    const COL: usize,
    const NUM_LAYER: usize,
> StaticKeymapView<'a, ROW, COL, NUM_LAYER> {
    /// `layer` has an action of its own for the key at (`row`, `col`).
    pub open spec fn defines(&self, layer: u8, row: u8, col: u8) -> bool {
        layer < NUM_LAYER && self.layers@[layer as int]@[row as int]@[col as int]
            != KeyAction::Transparent
    }

    /// The active layer if it defines the key, or else the default layer if that
    /// does.
    pub open spec fn owner(&self, active: u8, row: u8, col: u8) -> Option<u8> {
        if row >= ROW || col >= COL {
            None
        } else if self.defines(active, row, col) {
            Some(active)
        } else if self.defines(self.default_layer, row, col) {
            Some(self.default_layer)
        } else {
            None
        }
    }

    /// A view of `layers`.
    pub fn new(layers: &'a [[[KeyAction; COL]; ROW]; NUM_LAYER], default_layer: u8) -> (view: Self)
        ensures
            view.layers == layers,
            view.default_layer == default_layer,
    {
        Self { layers, default_layer }
    }

    /// Whether `layer` defines the key at (`row`, `col`).
    fn is_defined(&self, layer: u8, row: u8, col: u8) -> (defined: bool)
        requires
            row < ROW,
            col < COL,
        ensures
            defined == self.defines(layer, row, col),
    {
        (layer as usize) < NUM_LAYER && self.layers[layer as usize][row as usize][col as usize]
            != KeyAction::Transparent
    }
}

impl<'a, const ROW: usize, const COL: usize, const NUM_LAYER: usize> KeymapSource
    for StaticKeymapView<'a, ROW, COL, NUM_LAYER> {
    open spec fn may_own(
        &self,
        ctx: LightingContext,
        row: u8,
        col: u8,
        layer: Option<u8>,
    ) -> bool {
        layer == self.owner(ctx.layer, row, col)
    }

    fn effective_layer_at_pos(&self, ctx: &LightingContext, row: u8, col: u8) -> (layer: Option<
        u8,
    >) {
        if row as usize >= ROW || col as usize >= COL {
            return None;
        }
        if self.is_defined(ctx.layer, row, col) {
            return Some(ctx.layer);
        }
        if self.is_defined(self.default_layer, row, col) {
            return Some(self.default_layer);
        }
        None
    }
}

/// The layer that owns a key defines it, and a key without an owner is
/// transparent on the active and on the default layer.
pub proof fn owners_define_their_keys<
    'a,
    const ROW: usize,
    const COL: usize,
    const NUM_LAYER: usize,
>(view: StaticKeymapView<'a, ROW, COL, NUM_LAYER>, active: u8, row: u8, col: u8)
    requires
        row < ROW,
        col < COL,
    ensures
        match view.owner(active, row, col) {
            Some(layer) => view.defines(layer, row, col) && (layer == active || layer
                == view.default_layer),
            None => !view.defines(active, row, col) && !view.defines(view.default_layer, row, col),
        },
{
}

/// A static keymap answers with the active layer where that has an action for the key,
/// transparent being none; or else with the default layer where that has one; or else
/// with nothing, as it does beyond the keyboard.
pub proof fn active_layer_comes_before_the_default<
    'a,
    const ROW: usize,
    const COL: usize,
    const NUM_LAYER: usize,
>(
    view: StaticKeymapView<'a, ROW, COL, NUM_LAYER>,
    ctx: LightingContext,
    row: u8,
    col: u8,
    layer: Option<u8>,
)
    requires
        view.may_own(ctx, row, col, layer),
    ensures
        ({
            let active = ctx.layer as int;
            let default = view.default_layer as int;
            let on_active = active < NUM_LAYER
                && view.layers@[active]@[row as int]@[col as int] != KeyAction::Transparent;
            let on_default = default < NUM_LAYER
                && view.layers@[default]@[row as int]@[col as int] != KeyAction::Transparent;
            if row < ROW && col < COL && on_active {
                layer == Some(ctx.layer)
            } else if row < ROW && col < COL && on_default {
                layer == Some(view.default_layer)
            } else {
                layer is None
            }
        }),
{
}

} // verus!
