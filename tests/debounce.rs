use kinglish::debounce::{DebounceGate, DEBOUNCE_WINDOW_MS};

#[test]
fn window_is_three_seconds() {
    assert_eq!(DEBOUNCE_WINDOW_MS, 3000);
}

#[test]
fn lone_press_arms_without_confirming() {
    let mut gate = DebounceGate::new();
    assert_eq!(gate.last_trigger(), None);
    assert!(!gate.on_trigger(10_000));
    assert_eq!(gate.last_trigger(), Some(10_000));
}

#[test]
fn quick_second_press_confirms_and_clears() {
    let mut gate = DebounceGate::new();
    assert!(!gate.on_trigger(1_000));
    assert!(gate.on_trigger(3_999));
    assert_eq!(gate.last_trigger(), None);
}

#[test]
fn same_instant_second_press_confirms() {
    let mut gate = DebounceGate::new();
    assert!(!gate.on_trigger(500));
    assert!(gate.on_trigger(500));
    assert_eq!(gate.last_trigger(), None);
}

#[test]
fn exactly_three_seconds_does_not_confirm() {
    let mut gate = DebounceGate::new();
    assert!(!gate.on_trigger(1_000));
    assert!(!gate.on_trigger(4_000));
    assert_eq!(gate.last_trigger(), Some(4_000));
}

#[test]
fn late_second_press_rearms_the_window() {
    let mut gate = DebounceGate::new();
    assert!(!gate.on_trigger(1_000));
    assert!(!gate.on_trigger(9_000));
    assert_eq!(gate.last_trigger(), Some(9_000));
    assert!(gate.on_trigger(10_000));
    assert_eq!(gate.last_trigger(), None);
}

#[test]
fn press_after_confirm_starts_a_fresh_cycle() {
    let mut gate = DebounceGate::new();
    assert!(!gate.on_trigger(0));
    assert!(gate.on_trigger(100));
    assert!(!gate.on_trigger(200));
    assert_eq!(gate.last_trigger(), Some(200));
    assert!(gate.on_trigger(300));
}

#[test]
fn press_before_the_recorded_one_rearms() {
    let mut gate = DebounceGate::new();
    assert!(!gate.on_trigger(5_000));
    assert!(!gate.on_trigger(4_000));
    assert_eq!(gate.last_trigger(), Some(4_000));
}
