use rustboard::config::{DEBOUNCE_DELAY_MS, LAYER_DEBOUNCE_DELAY_MS};
use rustboard::debounce::{
    calculate_debounce, debounce_delay, layer_key, remove_resolved, Debounce, InsertOutcome,
    LifecycleState, Store,
};
use rustboard::matrix::{store_key, Key};

fn pressed(at: u64) -> Debounce {
    Debounce { pressed_at: at, lifecycle: LifecycleState::Pressed }
}

#[test]
fn insert_is_idempotent_for_a_held_key() {
    let mut store = Store::new();
    let k = Key::new(2, 3);
    assert_eq!(store_key(&mut store, &k, 5), InsertOutcome::Inserted);
    assert_eq!(store_key(&mut store, &k, 9), InsertOutcome::AlreadyPresent);
    assert_eq!(store.len(), 1);
    assert_eq!(store.get(&k), Some(pressed(5)));
}

#[test]
fn full_store_rejects_and_keeps_entries() {
    let mut store = Store::new();
    for i in 0..16i8 {
        assert_eq!(store.insert_if_absent(&Key::new(i / 6, i % 6), pressed(i as u64)), InsertOutcome::Inserted);
    }
    assert_eq!(store.len(), 16);
    assert_eq!(store_key(&mut store, &Key::new(3, 4), 99), InsertOutcome::Rejected);
    assert_eq!(store.len(), 16);
    assert!(!store.contains(&Key::new(3, 4)));
    for i in 0..16i8 {
        assert_eq!(store.get(&Key::new(i / 6, i % 6)), Some(pressed(i as u64)));
    }
    // a held key is still recognised when the store is full
    assert_eq!(store_key(&mut store, &Key::new(0, 0), 99), InsertOutcome::AlreadyPresent);
    assert_eq!(store.get(&Key::new(0, 0)), Some(pressed(0)));
}

#[test]
fn remove_and_get() {
    let mut store = Store::new();
    let k = Key::new(1, 4);
    assert_eq!(store.remove(&k), None);
    store_key(&mut store, &k, 7);
    assert_eq!(store.remove(&k), Some(pressed(7)));
    assert_eq!(store.get(&k), None);
    assert!(store.is_empty());
}

#[test]
fn set_lifecycle_keeps_press_time() {
    let mut store = Store::new();
    let k = Key::new(0, 2);
    store_key(&mut store, &k, 40);
    store.set_lifecycle(&k, LifecycleState::Released);
    assert_eq!(
        store.get(&k),
        Some(Debounce { pressed_at: 40, lifecycle: LifecycleState::Released })
    );
}

#[test]
fn debounce_delays() {
    assert_eq!(debounce_delay(&Key::new(0, 0)), DEBOUNCE_DELAY_MS);
    assert_eq!(debounce_delay(&layer_key()), LAYER_DEBOUNCE_DELAY_MS);
    assert!(LAYER_DEBOUNCE_DELAY_MS > DEBOUNCE_DELAY_MS);
}

#[test]
fn aging_promotes_only_after_the_window() {
    let mut store = Store::new();
    let a = Key::new(1, 1);
    let b = Key::new(2, 2);
    let lk = layer_key();
    store_key(&mut store, &a, 100);
    store_key(&mut store, &b, 130);
    store_key(&mut store, &lk, 100);

    calculate_debounce(&mut store, 149);
    assert_eq!(store.get(&a).unwrap().lifecycle, LifecycleState::Pressed);

    calculate_debounce(&mut store, 150);
    assert_eq!(store.get(&a), Some(Debounce { pressed_at: 100, lifecycle: LifecycleState::Released }));
    assert_eq!(store.get(&b).unwrap().lifecycle, LifecycleState::Pressed);
    assert_eq!(store.get(&lk).unwrap().lifecycle, LifecycleState::Pressed);

    calculate_debounce(&mut store, 349);
    assert_eq!(store.get(&lk).unwrap().lifecycle, LifecycleState::Pressed);
    calculate_debounce(&mut store, 350);
    assert_eq!(store.get(&lk).unwrap().lifecycle, LifecycleState::Released);
    assert_eq!(store.get(&b).unwrap().lifecycle, LifecycleState::Released);
    assert_eq!(store.len(), 3);
}

#[test]
fn aging_never_moves_backwards() {
    let mut store = Store::new();
    let a = Key::new(0, 1);
    store_key(&mut store, &a, 0);
    store.set_lifecycle(&a, LifecycleState::ReadyForRemoval);
    calculate_debounce(&mut store, 1000);
    assert_eq!(store.get(&a).unwrap().lifecycle, LifecycleState::ReadyForRemoval);
    // an earlier clock reading does not undo a promotion
    let b = Key::new(0, 2);
    store_key(&mut store, &b, 0);
    calculate_debounce(&mut store, 60);
    calculate_debounce(&mut store, 10);
    assert_eq!(store.get(&b).unwrap().lifecycle, LifecycleState::Released);
}

#[test]
fn aging_near_the_end_of_time() {
    let mut store = Store::new();
    let a = Key::new(0, 3);
    store_key(&mut store, &a, u64::MAX - 10);
    calculate_debounce(&mut store, u64::MAX);
    assert_eq!(store.get(&a).unwrap().lifecycle, LifecycleState::Pressed);
    // a press time after the clock reading is not expired either
    let b = Key::new(0, 4);
    store_key(&mut store, &b, 500);
    calculate_debounce(&mut store, 400);
    assert_eq!(store.get(&b).unwrap().lifecycle, LifecycleState::Pressed);
}

#[test]
fn remove_resolved_takes_only_reported_keys() {
    let mut store = Store::new();
    let a = Key::new(0, 1);
    let b = Key::new(0, 2);
    let c = Key::new(0, 3);
    store_key(&mut store, &a, 0);
    store_key(&mut store, &b, 0);
    store_key(&mut store, &c, 0);
    store.set_lifecycle(&b, LifecycleState::ReadyForRemoval);
    store.set_lifecycle(&c, LifecycleState::Released);
    remove_resolved(&mut store);
    assert_eq!(store.len(), 2);
    assert!(store.contains(&a));
    assert!(!store.contains(&b));
    assert!(store.contains(&c));
}
