//! The Dvorak keymaps of the two halves, as 4 x 6 grids listed row by row.
use vstd::prelude::*;

use crate::config::{COLS, KEYBOARD_LEFT_SIDE, ROWS};
use crate::enums::HidKeys;
use crate::layers::{Layer, Layers, LayersView};

verus! {

pub const BASE_LAYER_LEFT: [HidKeys; 24] = [
    HidKeys::Escape, HidKeys::Quote, HidKeys::Comma, HidKeys::Period, HidKeys::P, HidKeys::Y,
    HidKeys::Bspace, HidKeys::A, HidKeys::O, HidKeys::E, HidKeys::U, HidKeys::I,
    HidKeys::ModifierControl, HidKeys::SemiColon, HidKeys::Q, HidKeys::J, HidKeys::K, HidKeys::X,
    HidKeys::Undefined, HidKeys::Undefined, HidKeys::Undefined, HidKeys::Undefined, HidKeys::Space,
    HidKeys::ModifierShift,
];

pub const UPPER_LAYER_LEFT: [HidKeys; 24] = [
    HidKeys::Escape, HidKeys::Num1, HidKeys::Num2, HidKeys::Num3, HidKeys::Num4, HidKeys::Num5,
    HidKeys::Bspace, HidKeys::ModifierAlt, HidKeys::Undefined, HidKeys::Undefined, HidKeys::Copy,
    HidKeys::Paste,
    HidKeys::ModifierControl, HidKeys::Undefined, HidKeys::Undefined, HidKeys::Undefined,
    HidKeys::Undefined, HidKeys::Pscreen,
    HidKeys::Undefined, HidKeys::Undefined, HidKeys::Undefined, HidKeys::Undefined, HidKeys::Space,
    HidKeys::ModifierShift,
];

pub const BASE_LAYER_RIGHT: [HidKeys; 24] = [
    HidKeys::F, HidKeys::G, HidKeys::C, HidKeys::R, HidKeys::L, HidKeys::Slash,
    HidKeys::D, HidKeys::H, HidKeys::T, HidKeys::N, HidKeys::S, HidKeys::Minus,
    HidKeys::B, HidKeys::M, HidKeys::W, HidKeys::V, HidKeys::Z, HidKeys::Equal,
    HidKeys::Tab, HidKeys::Enter, HidKeys::Undefined, HidKeys::Undefined, HidKeys::Undefined,
    HidKeys::Undefined,
];

pub const UPPER_LAYER_RIGHT: [HidKeys; 24] = [
    HidKeys::Num6, HidKeys::Num7, HidKeys::Num8, HidKeys::Num9, HidKeys::Num0, HidKeys::Undefined,
    HidKeys::Undefined, HidKeys::Left, HidKeys::Down, HidKeys::Up, HidKeys::Right,
    HidKeys::Undefined,
    HidKeys::Backslash, HidKeys::Lbracket, HidKeys::Rbracket, HidKeys::Undefined,
    HidKeys::Undefined, HidKeys::Undefined,
    HidKeys::Tab, HidKeys::Enter, HidKeys::Undefined, HidKeys::Undefined, HidKeys::Undefined,
    HidKeys::Undefined,
];

/// Whether a coordinate lies on the matrix.
pub open spec fn in_grid(k: (i8, i8)) -> bool {
    0 <= k.0 < ROWS && 0 <= k.1 < COLS
}

/// Where a coordinate stands in a grid listed row by row.
pub open spec fn grid_index(k: (i8, i8)) -> int {
    k.0 * COLS + k.1
}

/// The keymap of the grid's first `n` entries.
pub open spec fn partial_grid_map(g: Seq<HidKeys>, n: int) -> Map<(i8, i8), HidKeys> {
    Map::new(
        |k: (i8, i8)| in_grid(k) && grid_index(k) < n,
        |k: (i8, i8)| g[grid_index(k)],
    )
}

/// The keymap that a grid lists: every coordinate of the matrix, each mapped
/// to its entry.
pub open spec fn grid_map(g: Seq<HidKeys>) -> Map<(i8, i8), HidKeys> {
    partial_grid_map(g, (ROWS * COLS) as int)
}

/// The layers of this half, in the base layer.
pub open spec fn layout_view() -> LayersView {
    if KEYBOARD_LEFT_SIDE {
        LayersView {
            base: grid_map(BASE_LAYER_LEFT@),
            upper: grid_map(UPPER_LAYER_LEFT@),
            state: Layer::Base,
            layer_key_down: false,
        }
    } else {
        LayersView {
            base: grid_map(BASE_LAYER_RIGHT@),
            upper: grid_map(UPPER_LAYER_RIGHT@),
            state: Layer::Base,
            layer_key_down: false,
        }
    }
}

/// The Dvorak layers of this half of the keyboard.
pub fn layout() -> (r: Layers)
    ensures
        r@ == layout_view(),
{
    let mut layers = Layers::new();
    if KEYBOARD_LEFT_SIDE {
        layers.initialize_base_layer_left();
        layers.initialize_upper_layer_left();
    } else {
        layers.initialize_base_layer_right();
        layers.initialize_upper_layer_right();
    }
    layers
}

/// The layers of the configured layout.
pub fn provide_layout() -> (r: Layers)
    ensures
        r@ == layout_view(),
{
    layout()
}

} // verus!
