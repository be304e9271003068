//! The layer resolver: which report entry a switch stands for in the active
//! layer, and the layer toggle.
use vstd::prelude::*;

use crate::config::{COLS, ROWS};
use crate::debounce::layer_key_pair;
use crate::enums::{hid_code, key_type_of, modifier_bit, HidKeys, HidModifiers, KeyType};
use crate::layout::{
    grid_index, grid_map, in_grid, layout_view, partial_grid_map, provide_layout,
    BASE_LAYER_LEFT, BASE_LAYER_RIGHT, UPPER_LAYER_LEFT, UPPER_LAYER_RIGHT,
};
use crate::matrix::Key;
use crate::storage::{keymap_contents, keymap_get, keymap_insert, keymap_new, LayerKeymap};

verus! {

#[derive(Clone, Copy, Debug, PartialEq, Eq, Structural)]
pub enum Layer {
    Base,
    Upper,
}

/// The other layer.
pub open spec fn toggled(l: Layer) -> Layer {
    match l {
        Layer::Base => Layer::Upper,
        Layer::Upper => Layer::Base,
    }
}

/// What a switch stands for in a report: a keycode, a modifier bit, or nothing.
#[derive(Clone, Copy, Debug, PartialEq, Eq, Structural)]
pub enum HidKeyOrModifier {
    Nothing,
    Key(u8),
    Modifier(u8),
}

/// The two keymaps, the active layer, and whether the press of the layer key
/// in flight has been handled.
pub struct LayersView {
    pub base: Map<(i8, i8), HidKeys>,
    pub upper: Map<(i8, i8), HidKeys>,
    pub state: Layer,
    pub layer_key_down: bool,
}

/// The keymap of a layer.
pub open spec fn keymap_of(v: LayersView, l: Layer) -> Map<(i8, i8), HidKeys> {
    match l {
        Layer::Base => v.base,
        Layer::Upper => v.upper,
    }
}

/// What a keymap entry puts in a report: modifier markers their bit, keys
/// their code; an empty or undefined slot, the layer marker and macro
/// markers nothing.
pub open spec fn classify(k: HidKeys) -> HidKeyOrModifier {
    match key_type_of(k) {
        KeyType::Modifier => HidKeyOrModifier::Modifier(modifier_bit(k)),
        KeyType::Key => if k == HidKeys::NoKey || k == HidKeys::Undefined {
            HidKeyOrModifier::Nothing
        } else {
            HidKeyOrModifier::Key(hid_code(k))
        },
        _ => HidKeyOrModifier::Nothing,
    }
}

/// What the switch at `k` stands for in layer `l`; nothing where the keymap
/// has no entry.
pub open spec fn resolve_of(v: LayersView, k: (i8, i8), l: Layer) -> HidKeyOrModifier {
    if keymap_of(v, l).contains_key(k) {
        classify(keymap_of(v, l)[k])
    } else {
        HidKeyOrModifier::Nothing
    }
}

/// The two keymaps, loaded once, and the active layer, changed only by the
/// layer key.
pub struct Layers {
    pub base: LayerKeymap,
    pub upper: LayerKeymap,
    pub state: Layer,
    /// Set once the press of the layer key in flight has been handled, so
    /// that one press flips the layer at most once; cleared on its release.
    pub layer_key_down: bool,
}

impl View for Layers {
    type V = LayersView;

    open spec fn view(&self) -> LayersView {
        LayersView {
            base: keymap_contents(self.base),
            upper: keymap_contents(self.upper),
            state: self.state,
            layer_key_down: self.layer_key_down,
        }
    }
}

/// The keymap of a grid listed row by row.
fn keymap_from_grid(grid: &[HidKeys; 24]) -> (r: LayerKeymap)
    ensures
        keymap_contents(r) == grid_map(grid@),
{
    let mut m = keymap_new();
    proof {
        assert(keymap_contents(m) =~= partial_grid_map(grid@, 0));
    }
    let mut row: usize = 0;
    while row < ROWS
        invariant
            row <= ROWS,
            keymap_contents(m) == partial_grid_map(grid@, (row * COLS) as int),
            keymap_contents(m).dom().finite(),
            keymap_contents(m).len() == row * COLS,
        decreases ROWS - row,
    {
        let mut col: usize = 0;
        while col < COLS
            invariant
                row < ROWS,
                col <= COLS,
                keymap_contents(m) == partial_grid_map(grid@, (row * COLS + col) as int),
                keymap_contents(m).dom().finite(),
                keymap_contents(m).len() == row * COLS + col,
            decreases COLS - col,
        {
            let idx = row * COLS + col;
            let k = (row as i8, col as i8);
            let ghost before = keymap_contents(m);
            proof {
                assert(grid_index(k) == idx);
                assert(!before.contains_key(k));
            }
            let _ = keymap_insert(&mut m, k, grid[idx]);
            proof {
                assert forall|q: (i8, i8)| in_grid(q) && grid_index(q) == idx implies q == k by {}
                assert(partial_grid_map(grid@, idx + 1) =~= before.insert(k, grid@[idx as int]));
            }
            col += 1;
        }
        row += 1;
    }
    m
}

impl Layers {
    /// Empty keymaps, in the base layer.
    pub fn new() -> (r: Layers)
        ensures
            r@.base == Map::<(i8, i8), HidKeys>::empty(),
            r@.upper == Map::<(i8, i8), HidKeys>::empty(),
            r@.state == Layer::Base,
            !r@.layer_key_down,
    {
        let r = Layers {
            base: keymap_new(),
            upper: keymap_new(),
            state: Layer::Base,
            layer_key_down: false,
        };
        proof {
            assert(r@.base =~= Map::<(i8, i8), HidKeys>::empty());
            assert(r@.upper =~= Map::<(i8, i8), HidKeys>::empty());
        }
        r
    }

    /// Loads the configured layout, in the base layer.
    pub fn load_layout(&mut self)
        ensures
            final(self)@ == layout_view(),
    {
        *self = provide_layout();
    }

    pub fn initialize_base_layer_left(&mut self)
        ensures
            final(self)@.base == grid_map(BASE_LAYER_LEFT@),
            final(self)@.upper == old(self)@.upper,
            final(self)@.state == old(self)@.state,
            final(self)@.layer_key_down == old(self)@.layer_key_down,
    {
        self.base = keymap_from_grid(&BASE_LAYER_LEFT);
    }

    pub fn initialize_upper_layer_left(&mut self)
        ensures
            final(self)@.upper == grid_map(UPPER_LAYER_LEFT@),
            final(self)@.base == old(self)@.base,
            final(self)@.state == old(self)@.state,
            final(self)@.layer_key_down == old(self)@.layer_key_down,
    {
        self.upper = keymap_from_grid(&UPPER_LAYER_LEFT);
    }

    pub fn initialize_base_layer_right(&mut self)
        ensures
            final(self)@.base == grid_map(BASE_LAYER_RIGHT@),
            final(self)@.upper == old(self)@.upper,
            final(self)@.state == old(self)@.state,
            final(self)@.layer_key_down == old(self)@.layer_key_down,
    {
        self.base = keymap_from_grid(&BASE_LAYER_RIGHT);
    }

    pub fn initialize_upper_layer_right(&mut self)
        ensures
            final(self)@.upper == grid_map(UPPER_LAYER_RIGHT@),
            final(self)@.base == old(self)@.base,
            final(self)@.state == old(self)@.state,
            final(self)@.layer_key_down == old(self)@.layer_key_down,
    {
        self.upper = keymap_from_grid(&UPPER_LAYER_RIGHT);
    }

    /// Flips the active layer when the switch at (`row`, `col`) is the layer key.
    pub fn set_layer(&mut self, row: i8, col: i8)
        ensures
            final(self)@.base == old(self)@.base,
            final(self)@.upper == old(self)@.upper,
            final(self)@.layer_key_down == old(self)@.layer_key_down,
            final(self)@.state == if (row, col) == layer_key_pair() {
                toggled(old(self)@.state)
            } else {
                old(self)@.state
            },
    {
        let lk = crate::debounce::layer_key();
        if row == lk.row && col == lk.col {
            self.state = match self.state {
                Layer::Base => Layer::Upper,
                Layer::Upper => Layer::Base,
            };
        }
    }

    /// The keymap entry at (`row`, `col`) in the active layer.
    pub fn get(&self, row: i8, col: i8) -> (r: Option<HidKeys>)
        ensures
            r == keymap_of(self@, self@.state).index_opt((row, col)),
    {
        match self.state {
            Layer::Base => keymap_get(&self.base, &(row, col)),
            Layer::Upper => keymap_get(&self.upper, &(row, col)),
        }
    }

    /// What the switch `key` stands for in `layer`.
    pub fn resolve(&self, key: &Key, layer: Layer) -> (r: HidKeyOrModifier)
        ensures
            r == resolve_of(self@, key.pair(), layer),
    {
        let entry = match layer {
            Layer::Base => keymap_get(&self.base, &(key.row, key.col)),
            Layer::Upper => keymap_get(&self.upper, &(key.row, key.col)),
        };
        match entry {
            Some(k) => match KeyType::check_type(&k) {
                KeyType::Modifier => HidKeyOrModifier::Modifier(HidModifiers::get_modifier(&k)),
                KeyType::Key => {
                    if k == HidKeys::NoKey || k == HidKeys::Undefined {
                        HidKeyOrModifier::Nothing
                    } else {
                        HidKeyOrModifier::Key(k.code())
                    }
                },
                _ => HidKeyOrModifier::Nothing,
            },
            None => HidKeyOrModifier::Nothing,
        }
    }

    /// Sets in `modifier` the bit of `key`, if it is a modifier.
    pub fn set_modifier(&self, key: &HidKeys, modifier: &mut u8)
        ensures
            *final(modifier) == *old(modifier) | modifier_bit(*key),
    {
        *modifier = *modifier | HidModifiers::get_modifier(key);
    }
}

} // verus!
