use rustboard::ble::{process_entry, KeyReport};
use rustboard::debounce::{layer_key, LifecycleState};
use rustboard::layers::{HidKeyOrModifier, Layer, Layers};
use rustboard::matrix::Key;

#[test]
fn new_report_is_empty() {
    let r = KeyReport::new();
    assert!(r.is_empty());
    assert_eq!(r.to_bytes(), [0; 8]);
}

#[test]
fn a_keycode_is_held_once() {
    let mut r = KeyReport::new();
    r.press_key(0x04);
    r.press_key(0x04);
    assert_eq!(r.keys, [0x04, 0, 0, 0, 0, 0]);
    r.press_key(0x05);
    assert_eq!(r.keys, [0x04, 0x05, 0, 0, 0, 0]);
}

#[test]
fn released_slot_is_reused_first() {
    let mut r = KeyReport::new();
    for c in [4u8, 5, 6] {
        r.press_key(c);
    }
    r.release_key(5);
    assert_eq!(r.keys, [4, 0, 6, 0, 0, 0]);
    r.press_key(7);
    assert_eq!(r.keys, [4, 7, 6, 0, 0, 0]);
    r.release_key(9);
    assert_eq!(r.keys, [4, 7, 6, 0, 0, 0]);
}

#[test]
fn rollover_keeps_the_first_six() {
    let mut r = KeyReport::new();
    for c in 4u8..11 {
        r.press_key(c);
    }
    assert_eq!(r.keys, [4, 5, 6, 7, 8, 9]);
    let mut distinct: Vec<u8> = r.keys.iter().copied().filter(|&c| c != 0).collect();
    distinct.sort();
    distinct.dedup();
    assert_eq!(distinct.len(), 6);
    r.release_key(6);
    r.press_key(10);
    assert_eq!(r.keys, [4, 5, 10, 7, 8, 9]);
}

#[test]
fn modifiers_set_and_clear() {
    let mut r = KeyReport::new();
    r.press_modifier(0x02);
    r.press_modifier(0x01);
    assert_eq!(r.modifiers, 0x03);
    assert!(!r.is_empty());
    r.release_modifier(0x02);
    assert_eq!(r.modifiers, 0x01);
    r.press(HidKeyOrModifier::Modifier(0x08));
    r.press(HidKeyOrModifier::Key(0x2C));
    r.press(HidKeyOrModifier::Nothing);
    assert_eq!(r.to_bytes(), [0x09, 0, 0x2C, 0, 0, 0, 0, 0]);
    r.release_entry(HidKeyOrModifier::Key(0x2C));
    r.release_entry(HidKeyOrModifier::Modifier(0x01));
    assert_eq!(r.to_bytes(), [0x08, 0, 0, 0, 0, 0, 0, 0]);
    r.release();
    assert!(r.is_empty());
}

#[test]
fn layer_key_never_enters_the_report() {
    let mut layers = Layers::new();
    layers.load_layout();
    let mut r = KeyReport::new();
    process_entry(&mut layers, &mut r, &layer_key(), LifecycleState::Pressed);
    assert!(r.is_empty());
    assert_eq!(layers.state, Layer::Upper);
    assert!(layers.layer_key_down);
    process_entry(&mut layers, &mut r, &layer_key(), LifecycleState::Released);
    assert!(r.is_empty());
    assert!(!layers.layer_key_down);
    assert_eq!(layers.state, Layer::Upper);
}

#[test]
fn guarded_toggle_waits_for_an_empty_report() {
    let mut layers = Layers::new();
    layers.load_layout();
    let mut r = KeyReport::new();
    let a = Key::new(1, 1);
    process_entry(&mut layers, &mut r, &a, LifecycleState::Pressed);
    assert_eq!(r.keys, [0x04, 0, 0, 0, 0, 0]);
    // the press is blocked by the held key, and is not retried
    process_entry(&mut layers, &mut r, &layer_key(), LifecycleState::Pressed);
    assert_eq!(layers.state, Layer::Base);
    process_entry(&mut layers, &mut r, &a, LifecycleState::Released);
    assert!(r.is_empty());
    process_entry(&mut layers, &mut r, &layer_key(), LifecycleState::Pressed);
    assert_eq!(layers.state, Layer::Base);
    process_entry(&mut layers, &mut r, &layer_key(), LifecycleState::Released);
    // the next press flips it
    process_entry(&mut layers, &mut r, &layer_key(), LifecycleState::Pressed);
    assert_eq!(layers.state, Layer::Upper);
    // in the upper layer the same switch is the Alt modifier
    process_entry(&mut layers, &mut r, &a, LifecycleState::Pressed);
    assert_eq!(r.modifiers, 0x04);
    process_entry(&mut layers, &mut r, &a, LifecycleState::ReadyForRemoval);
    assert_eq!(r.modifiers, 0x04);
}

#[test]
fn seventh_key_dropped_among_others() {
    let mut layers = Layers::new();
    layers.load_layout();
    let mut r = KeyReport::new();
    for col in 1..6 {
        process_entry(&mut layers, &mut r, &Key::new(0, col), LifecycleState::Pressed);
    }
    process_entry(&mut layers, &mut r, &Key::new(1, 1), LifecycleState::Pressed);
    let six = r.keys;
    // held keys pressed again and new keys alike leave the full report as it was
    for col in 1..6 {
        process_entry(&mut layers, &mut r, &Key::new(1, col), LifecycleState::Pressed);
        process_entry(&mut layers, &mut r, &Key::new(2, col), LifecycleState::Pressed);
    }
    assert_eq!(r.keys, six);
    assert_eq!(r.modifiers, 0);
}
