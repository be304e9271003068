use rustboard::config::{SLEEP_DELAY_INIT_MS, SLEEP_DELAY_MS};
use rustboard::debounce::{LifecycleState, Store};
use rustboard::matrix::{next_scan_action, scan_row, Key, ScanAction, SleepState};

#[test]
fn scan_row_records_active_columns() {
    let mut store = Store::new();
    let mut sleep = SleepState::new(0);
    scan_row(&mut store, &mut sleep, 2, &[false, true, false, false, true, false], 30);
    assert_eq!(store.len(), 2);
    assert_eq!(store.get(&Key::new(2, 1)).unwrap().pressed_at, 30);
    assert_eq!(store.get(&Key::new(2, 4)).unwrap().lifecycle, LifecycleState::Pressed);
    assert!(sleep.activity_since_last_check);
    assert_eq!(sleep.wake_deadline, SLEEP_DELAY_INIT_MS);

    // a held key is recorded once
    scan_row(&mut store, &mut sleep, 2, &[false, true, false, false, false, false], 40);
    assert_eq!(store.get(&Key::new(2, 1)).unwrap().pressed_at, 30);
    assert_eq!(store.len(), 2);
}

#[test]
fn quiet_row_is_no_activity() {
    let mut store = Store::new();
    let mut sleep = SleepState::new(0);
    scan_row(&mut store, &mut sleep, 0, &[false; 6], 5);
    assert!(store.is_empty());
    assert!(!sleep.activity_since_last_check);
}

#[test]
fn sleep_timer() {
    let mut sleep = SleepState::new(1000);
    assert_eq!(sleep.wake_deadline, 1000 + SLEEP_DELAY_INIT_MS);
    assert!(!sleep.sleep_due(1000 + SLEEP_DELAY_INIT_MS - 1));
    assert!(sleep.sleep_due(1000 + SLEEP_DELAY_INIT_MS));

    sleep.finish_pass(5000);
    assert_eq!(sleep.wake_deadline, 1000 + SLEEP_DELAY_INIT_MS);
    sleep.record_activity();
    sleep.finish_pass(5000);
    assert_eq!(sleep.wake_deadline, 5000 + SLEEP_DELAY_MS);
    assert!(!sleep.activity_since_last_check);

    sleep.wake(9000);
    assert_eq!(sleep.wake_deadline, 9000 + SLEEP_DELAY_INIT_MS);
}

#[test]
fn sleep_deadline_saturates() {
    let mut sleep = SleepState::new(u64::MAX - 1);
    assert_eq!(sleep.wake_deadline, u64::MAX);
    sleep.record_activity();
    sleep.finish_pass(u64::MAX);
    assert_eq!(sleep.wake_deadline, u64::MAX);
}

#[test]
fn scan_decisions() {
    let sleep = SleepState::new(0);
    assert_eq!(next_scan_action(&sleep, 10), ScanAction::Scan);
    assert_eq!(next_scan_action(&sleep, SLEEP_DELAY_INIT_MS - 1), ScanAction::Scan);
    assert_eq!(next_scan_action(&sleep, SLEEP_DELAY_INIT_MS), ScanAction::EnterSleep);
}
