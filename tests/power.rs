use rustboard::ble::PowerState;

#[test]
fn power_reduced_once_per_session() {
    let mut p = PowerState::new();
    let events = [false, true, true, true, false, false, true, true, false, true];
    let reductions: Vec<bool> = events.iter().map(|&c| p.update(c)).collect();
    assert_eq!(
        reductions,
        vec![false, true, false, false, false, false, true, false, false, true]
    );
    assert!(p.connected);
    assert!(p.tx_power_reduced);
}

#[test]
fn disconnect_rearms() {
    let mut p = PowerState::new();
    assert!(p.update(true));
    assert!(!p.update(true));
    assert!(!p.update(false));
    assert!(!p.tx_power_reduced);
    assert!(p.update(true));
}
