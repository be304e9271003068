use rustboard::enums::HidKeys;
use rustboard::layers::{HidKeyOrModifier, Layer, Layers};
use rustboard::layout::{layout, provide_layout, BASE_LAYER_LEFT};
use rustboard::matrix::Key;

#[test]
fn new_layers_are_empty_in_base() {
    let layers = Layers::new();
    assert_eq!(layers.state, Layer::Base);
    assert_eq!(layers.get(1, 1), None);
    assert_eq!(layers.resolve(&Key::new(1, 1), Layer::Base), HidKeyOrModifier::Nothing);
}

#[test]
fn left_layout_lookups() {
    let mut layers = Layers::new();
    layers.load_layout();
    assert_eq!(layers.get(1, 1), Some(HidKeys::A));
    assert_eq!(layers.get(0, 0), Some(HidKeys::Escape));
    assert_eq!(layers.get(3, 5), Some(HidKeys::ModifierShift));
    assert_eq!(layers.get(4, 0), None);
    assert_eq!(layers.get(0, 6), None);
    assert_eq!(layers.base.len(), 24);
    assert_eq!(layers.upper.len(), 24);
    layers.set_layer(3, 3);
    assert_eq!(layers.get(0, 1), Some(HidKeys::Num1));
    assert_eq!(layers.get(1, 4), Some(HidKeys::Copy));
}

#[test]
fn resolve_by_tag() {
    let layers = provide_layout();
    assert_eq!(layers.resolve(&Key::new(1, 1), Layer::Base), HidKeyOrModifier::Key(0x04));
    assert_eq!(layers.resolve(&Key::new(2, 0), Layer::Base), HidKeyOrModifier::Modifier(0x01));
    assert_eq!(layers.resolve(&Key::new(3, 5), Layer::Upper), HidKeyOrModifier::Modifier(0x02));
    assert_eq!(layers.resolve(&Key::new(1, 1), Layer::Upper), HidKeyOrModifier::Modifier(0x04));
    assert_eq!(layers.resolve(&Key::new(0, 1), Layer::Upper), HidKeyOrModifier::Key(0x1E));
    // unused slots and the layer key resolve to nothing
    assert_eq!(layers.resolve(&Key::new(3, 0), Layer::Base), HidKeyOrModifier::Nothing);
    assert_eq!(layers.resolve(&Key::new(3, 3), Layer::Base), HidKeyOrModifier::Nothing);
    assert_eq!(layers.resolve(&Key::new(5, 5), Layer::Base), HidKeyOrModifier::Nothing);
}

#[test]
fn set_layer_only_for_the_layer_key() {
    let mut layers = layout();
    layers.set_layer(1, 1);
    assert_eq!(layers.state, Layer::Base);
    layers.set_layer(3, 3);
    assert_eq!(layers.state, Layer::Upper);
    layers.set_layer(3, 3);
    assert_eq!(layers.state, Layer::Base);
}

#[test]
fn right_half_layers() {
    let mut layers = Layers::new();
    layers.initialize_base_layer_right();
    layers.initialize_upper_layer_right();
    assert_eq!(layers.get(0, 0), Some(HidKeys::F));
    assert_eq!(layers.get(3, 1), Some(HidKeys::Enter));
    layers.state = Layer::Upper;
    assert_eq!(layers.get(1, 1), Some(HidKeys::Left));
    assert_eq!(layers.get(2, 0), Some(HidKeys::Backslash));
}

#[test]
fn left_tables_load_in_row_order() {
    let mut layers = Layers::new();
    layers.initialize_base_layer_left();
    layers.initialize_upper_layer_left();
    for row in 0..4i8 {
        for col in 0..6i8 {
            assert_eq!(layers.get(row, col), Some(BASE_LAYER_LEFT[(row * 6 + col) as usize]));
        }
    }
}

#[test]
fn set_modifier_ors_the_bit() {
    let layers = Layers::new();
    let mut m = 0x01u8;
    layers.set_modifier(&HidKeys::ModifierShift, &mut m);
    assert_eq!(m, 0x03);
    layers.set_modifier(&HidKeys::A, &mut m);
    assert_eq!(m, 0x03);
}
