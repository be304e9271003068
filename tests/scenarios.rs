use rustboard::ble::{update_report, KeyReport, PowerState};
use rustboard::config::{DEBOUNCE_DELAY_MS, LAYER_DEBOUNCE_DELAY_MS, PRESSED_KEYS_INDEXMAP_SIZE};
use rustboard::debounce::{calculate_debounce, layer_key, remove_resolved, InsertOutcome, Store};
use rustboard::layers::{Layer, Layers};
use rustboard::matrix::{next_scan_action, scan_row, store_key, Key, ScanAction, SleepState};

fn loaded_layers() -> Layers {
    let mut layers = Layers::new();
    layers.load_layout();
    layers
}

/// One round of the aging task and the transmitter at `now`, with the link up.
fn run_round(store: &mut Store, layers: &mut Layers, report: &mut KeyReport, now: u64) {
    calculate_debounce(store, now);
    update_report(store, layers, report);
    remove_resolved(store);
}

#[test]
fn scenario_single_key_report() {
    let mut store = Store::new();
    let mut layers = loaded_layers();
    let mut report = KeyReport::new();
    let mut power = PowerState::new();
    assert!(power.update(true));

    assert_eq!(store_key(&mut store, &Key::new(1, 1), 0), InsertOutcome::Inserted);
    run_round(&mut store, &mut layers, &mut report, 10);
    assert_eq!(report.modifiers, 0x00);
    assert_eq!(report.keys, [0x04, 0, 0, 0, 0, 0]);
    assert_eq!(report.to_bytes(), [0x00, 0x00, 0x04, 0, 0, 0, 0, 0]);

    run_round(&mut store, &mut layers, &mut report, DEBOUNCE_DELAY_MS);
    assert_eq!(report.keys, [0; 6]);
    assert!(store.is_empty());
}

#[test]
fn scenario_layer_toggle_press_release() {
    let mut store = Store::new();
    let mut layers = loaded_layers();
    let mut report = KeyReport::new();
    let lk = layer_key();
    assert_eq!(layers.state, Layer::Base);

    store_key(&mut store, &lk, 1000);
    run_round(&mut store, &mut layers, &mut report, 1000 + DEBOUNCE_DELAY_MS);
    assert_eq!(layers.state, Layer::Upper);
    assert_eq!(store.len(), 1);
    // later passes over the same press flip nothing
    run_round(&mut store, &mut layers, &mut report, 1000 + DEBOUNCE_DELAY_MS + 1);
    assert_eq!(layers.state, Layer::Upper);
    run_round(&mut store, &mut layers, &mut report, 1000 + LAYER_DEBOUNCE_DELAY_MS);
    assert_eq!(layers.state, Layer::Upper);
    assert!(store.is_empty());
    assert!(report.is_empty());

    store_key(&mut store, &lk, 2000);
    run_round(&mut store, &mut layers, &mut report, 2000);
    assert_eq!(layers.state, Layer::Base);
    run_round(&mut store, &mut layers, &mut report, 2000 + LAYER_DEBOUNCE_DELAY_MS);
    assert_eq!(layers.state, Layer::Base);
    assert!(store.is_empty());
    assert!(report.is_empty());
    assert_eq!(report.to_bytes(), [0; 8]);
}

#[test]
fn scenario_shift_and_a() {
    let mut store = Store::new();
    let mut layers = loaded_layers();
    let mut report = KeyReport::new();
    store_key(&mut store, &Key::new(3, 5), 0);
    store_key(&mut store, &Key::new(1, 1), 0);
    run_round(&mut store, &mut layers, &mut report, 5);
    assert_eq!(report.modifiers, 0x02);
    assert_eq!(report.keys, [0x04, 0, 0, 0, 0, 0]);
    assert_eq!(report.to_bytes(), [0x02, 0x00, 0x04, 0, 0, 0, 0, 0]);
}

#[test]
fn scenario_seventh_key_dropped() {
    let mut store = Store::new();
    let mut layers = loaded_layers();
    let mut report = KeyReport::new();
    // ' , . p y a
    for col in 1..6 {
        store_key(&mut store, &Key::new(0, col), 0);
    }
    store_key(&mut store, &Key::new(1, 1), 0);
    run_round(&mut store, &mut layers, &mut report, 1);
    let six = [0x34, 0x36, 0x37, 0x13, 0x1C, 0x04];
    assert_eq!(report.keys, six);

    // o
    assert_eq!(store_key(&mut store, &Key::new(1, 2), 2), InsertOutcome::Inserted);
    run_round(&mut store, &mut layers, &mut report, 2);
    assert_eq!(report.keys, six);
    assert_eq!(report.modifiers, 0);
    assert_eq!(report.reserved, 0);
}

#[test]
fn scenario_disconnected_burst_then_drain() {
    let mut store = Store::new();
    let mut layers = loaded_layers();
    let mut report = KeyReport::new();
    let mut power = PowerState::new();
    assert!(!power.update(false));

    let lk = layer_key();
    let mut accepted = 0;
    let mut rejected = 0;
    let mut pressed = 0;
    'outer: for row in 0..4 {
        for col in 0..6 {
            let key = Key::new(row, col);
            if key == lk {
                continue;
            }
            match store_key(&mut store, &key, 10) {
                InsertOutcome::Inserted => accepted += 1,
                InsertOutcome::Rejected => rejected += 1,
                InsertOutcome::AlreadyPresent => panic!("distinct keys"),
            }
            pressed += 1;
            if pressed == 20 {
                break 'outer;
            }
        }
    }
    assert_eq!(accepted, PRESSED_KEYS_INDEXMAP_SIZE);
    assert_eq!(rejected, 4);
    assert_eq!(store.len(), 16);
    assert!(store.contains(&Key::new(0, 0)));
    assert!(!store.contains(&Key::new(3, 2)));

    assert!(power.update(true));
    run_round(&mut store, &mut layers, &mut report, 20);
    assert_eq!(store.len(), 16);
    run_round(&mut store, &mut layers, &mut report, 10 + DEBOUNCE_DELAY_MS);
    assert!(store.is_empty());
    assert!(report.is_empty());
}

#[test]
fn scenario_disconnected_scan_keeps_first_sixteen() {
    let mut store = Store::new();
    let mut layers = loaded_layers();
    let mut report = KeyReport::new();
    let mut power = PowerState::new();
    let mut sleep = SleepState::new(0);
    assert!(!power.update(false));

    // link down: the scanner still sweeps; rows 0-2 fully held, row 3 columns 0-1
    assert_eq!(next_scan_action(&sleep, 10), ScanAction::Scan);
    for row in 0..3 {
        scan_row(&mut store, &mut sleep, row, &[true; 6], 10);
    }
    scan_row(&mut store, &mut sleep, 3, &[true, true, false, false, false, false], 10);
    sleep.finish_pass(10);
    assert_eq!(store.len(), 16);
    for col in 0..4 {
        assert!(store.contains(&Key::new(2, col)));
    }
    assert!(!store.contains(&Key::new(2, 4)));
    assert!(!store.contains(&Key::new(3, 0)));

    assert!(power.update(true));
    run_round(&mut store, &mut layers, &mut report, 10 + DEBOUNCE_DELAY_MS);
    assert!(store.is_empty());
    assert!(report.is_empty());
}
