use controller_input::debounce::ButtonDebouncer;

// (raw_state, debounced_state)
const INPUT_SEQ: [(bool, bool); 18] = [
    // Press start (instantly change)
    (false, false),
    (true, true),
    (false, true),
    (false, true),
    // Pressed state
    (true, true),
    (true, true),
    (true, true),
    (true, true),
    // Release start (wait for 5ms to change)
    (false, true),
    (false, true),
    (true, true),
    (false, true),
    (false, true),
    (false, true),
    (false, true),
    (false, true),
    // Release end (debounce applied)
    (false, false),
    (false, false),
];

#[test]
fn button_debouncer_test() {
    let mut debouncer = ButtonDebouncer::<5>::new(false);
    for (i, (raw_state, debounced_state)) in INPUT_SEQ.into_iter().enumerate() {
        println!("{i}");
        assert_eq!(debouncer.debounce(raw_state, 1), debounced_state);
    }
}

#[test]
fn debouncer_debouncer_test() {
    let mut debouncer = ButtonDebouncer::<5>::new(false);
    for (i, (raw_state, debounced_state)) in INPUT_SEQ.into_iter().enumerate() {
        println!("{i}");
        assert_eq!(debouncer.debounce(raw_state, 1), debounced_state);
    }
}

#[test]
fn press_is_reported_on_the_same_call_whatever_elapsed() {
    for elapsed in [0u16, 1, 5, 1000, u16::MAX] {
        let mut d = ButtonDebouncer::<5>::new(false);
        assert!(d.debounce(true, elapsed));
    }
    // Also right after a committed release.
    let mut d = ButtonDebouncer::<5>::new(true);
    assert!(d.debounce(false, 0));
    assert!(!d.debounce(false, 10));
    assert!(d.debounce(true, 0));
}

#[test]
fn end_to_end_release_sequence() {
    let raw = [false, true, false, false, true, false, false, false, false, false, false, false, false];
    let expected = [false, true, true, true, true, true, true, true, true, true, false, false, false];
    let mut d = ButtonDebouncer::<5>::new(false);
    for (i, (&r, &e)) in raw.iter().zip(expected.iter()).enumerate() {
        assert_eq!(d.debounce(r, 1), e, "step {i}");
    }
}

#[test]
fn flicker_postpones_release() {
    let mut d = ButtonDebouncer::<5>::new(true);
    // Release begins, then flickers every 3 ms: never released.
    assert!(d.debounce(false, 1));
    for _ in 0..10 {
        assert!(d.debounce(false, 3));
        assert!(d.debounce(true, 0));
        assert!(d.debounce(false, 0));
    }
    // Stable for 4 ms: still pressed; at 5 ms: released.
    assert!(d.debounce(false, 4));
    assert!(!d.debounce(false, 1));
}

#[test]
fn large_elapsed_releases_at_once_after_window() {
    let mut d = ButtonDebouncer::<5>::new(true);
    assert!(d.debounce(false, 100));
    assert!(!d.debounce(false, 100));
}
