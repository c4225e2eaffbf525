use event_core::debounce::debounce_confirmed;
use event_core::debounce::debounce_run;
use event_core::debounce::RawLevel;

#[test]
fn confirmation_needs_a_changed_sample_at_the_target() {
    assert!(debounce_confirmed(RawLevel::High, RawLevel::Low, RawLevel::Low));
    assert!(!debounce_confirmed(RawLevel::Low, RawLevel::Low, RawLevel::Low));
    assert!(!debounce_confirmed(RawLevel::High, RawLevel::High, RawLevel::Low));
    assert!(!debounce_confirmed(RawLevel::Low, RawLevel::High, RawLevel::Low));
}

#[test]
fn clean_falling_edge_confirms_one_settle_window_later() {
    let flips: Vec<u64> = vec![100];
    let confirmed = debounce_run(RawLevel::High, &flips, 0, RawLevel::Low, 20);
    assert_eq!(confirmed, Some(120));
}

#[test]
fn dense_bounce_burst_yields_exactly_one_confirmed_edge() {
    // Five flips inside one settle window: one confirmation, at the first
    // flip plus the settle window, and nothing for the opposite edge.
    let flips: Vec<u64> = vec![10, 12, 15, 19, 24];
    let falling = debounce_run(RawLevel::High, &flips, 0, RawLevel::Low, 20);
    assert_eq!(falling, Some(30));
    let rising = debounce_run(RawLevel::High, &flips, 30, RawLevel::High, 20);
    assert_eq!(rising, None);
}

#[test]
fn bounce_spanning_windows_still_confirms_within_one_settle_of_the_last_flip() {
    // Gaps 15 and 14 stay below the 20 ms settle window, but the burst is
    // longer than one window: the first resample at 30 still reads the
    // bouncing line high, the retry confirms at 59.
    let flips: Vec<u64> = vec![10, 25, 39];
    let confirmed = debounce_run(RawLevel::High, &flips, 0, RawLevel::Low, 20);
    assert_eq!(confirmed, Some(59));
}

#[test]
fn a_line_with_no_toggles_left_never_confirms() {
    let quiet: Vec<u64> = vec![];
    assert_eq!(debounce_run(RawLevel::High, &quiet, 0, RawLevel::Low, 20), None);
    let past: Vec<u64> = vec![5];
    assert_eq!(debounce_run(RawLevel::High, &past, 50, RawLevel::Low, 20), None);
}

#[test]
fn rising_edge_is_debounced_the_same_way() {
    // Press at 100, bounce on release around 400.
    let flips: Vec<u64> = vec![100, 400, 405, 412];
    let falling = debounce_run(RawLevel::High, &flips, 0, RawLevel::Low, 20);
    assert_eq!(falling, Some(120));
    let rising = debounce_run(RawLevel::High, &flips, 120, RawLevel::High, 20);
    assert_eq!(rising, Some(420));
}
