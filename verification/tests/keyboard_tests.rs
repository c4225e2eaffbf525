use event_core::debounce::RawLevel;
use event_core::keyboard::Key;
use event_core::keyboard::Keyboard;
use event_core::keyboard::KEY_A;
use event_core::keyboard::KEY_ENTER;
use event_core::keyboard::KEY_LEFT_SHIFT;
use event_core::keyboard::KEY_Q;
use event_core::keyboard::KEY_Z;

/// One full matrix of samples with the given sample indices pulled low;
/// sample index = column * 7 + row, flag bit = column * 8 + row.
fn matrix_with_low(low_samples: &[usize]) -> Vec<RawLevel> {
    let mut samples = vec![RawLevel::High; 56];
    for &i in low_samples {
        samples[i] = RawLevel::Low;
    }
    samples
}

#[test]
fn an_idle_matrix_decodes_to_no_keys() {
    let mut keyboard = Keyboard::new();
    keyboard.scan(&matrix_with_low(&[]));
    assert_eq!(keyboard.held_keys().bits, 0);
    assert_eq!(keyboard.pressed_keys().bits, 0);
    assert_eq!(keyboard.released_keys().bits, 0);
}

#[test]
fn a_low_row_sets_the_key_at_its_matrix_position() {
    // The Q key sits at flag bit 16: column 2, row 0 — sample index 14.
    let mut keyboard = Keyboard::new();
    keyboard.scan(&matrix_with_low(&[14]));
    assert_eq!(keyboard.held_keys().bits, KEY_Q);
    assert_eq!(keyboard.pressed_keys().bits, KEY_Q);
}

#[test]
fn a_held_key_is_buffered_as_pressed_only_once() {
    let mut keyboard = Keyboard::new();
    keyboard.scan(&matrix_with_low(&[14]));
    keyboard.clear_pressed_keys();
    keyboard.scan(&matrix_with_low(&[14]));
    assert_eq!(keyboard.held_keys().bits, KEY_Q);
    assert_eq!(keyboard.pressed_keys().bits, 0);
    assert_eq!(keyboard.released_keys().bits, 0);
}

#[test]
fn a_release_is_buffered_until_cleared() {
    let mut keyboard = Keyboard::new();
    keyboard.scan(&matrix_with_low(&[14]));
    keyboard.scan(&matrix_with_low(&[]));
    assert_eq!(keyboard.held_keys().bits, 0);
    assert_eq!(keyboard.released_keys().bits, KEY_Q);
    keyboard.clear_released_keys();
    assert_eq!(keyboard.released_keys().bits, 0);
}

#[test]
fn several_keys_accumulate_and_clear_selectively() {
    // Z is bit 1 (column 0, row 1 — sample 1); A is bit 41 (column 5,
    // row 1 — sample 36); left shift is bit 8 (column 1, row 0 — sample 7).
    let mut keyboard = Keyboard::new();
    keyboard.scan(&matrix_with_low(&[1, 36, 7]));
    assert_eq!(keyboard.pressed_keys().bits, KEY_Z | KEY_A | KEY_LEFT_SHIFT);
    keyboard.clear_some_pressed_keys(Key::from_bits(KEY_Z));
    assert_eq!(keyboard.pressed_keys().bits, KEY_A | KEY_LEFT_SHIFT);
    keyboard.scan(&matrix_with_low(&[7]));
    assert_eq!(keyboard.released_keys().bits, KEY_Z | KEY_A);
    keyboard.clear_some_released_keys(Key::from_bits(KEY_A));
    assert_eq!(keyboard.released_keys().bits, KEY_Z);
}

#[test]
fn key_sets_combine_like_bit_flags() {
    let q = Key::from_bits(KEY_Q);
    let shift = Key::from_bits(KEY_LEFT_SHIFT);
    let both = q.or(shift);
    assert!(both.contains(KEY_Q));
    assert!(both.contains(KEY_LEFT_SHIFT));
    assert!(both.contains(KEY_Q | KEY_LEFT_SHIFT));
    assert!(!both.contains(KEY_ENTER));
    assert_eq!(both.and(q).bits, KEY_Q);
    assert_eq!(both.xor(q).bits, KEY_LEFT_SHIFT);
    assert_eq!(both.and(q.not()).bits, KEY_LEFT_SHIFT);
    assert_eq!(Key::none().bits, 0);
}
