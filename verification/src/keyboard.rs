//! The scanned key matrix as a set of bit flags.
//!
//! The keyboard is an 8-column, 7-row matrix.  A scan drives each column
//! line in turn and samples the seven row lines; a row pulled low means
//! the key at that matrix position is down.  Each key occupies one bit of
//! a 64-bit flag set, at position `column * 8 + row` (every eighth bit is
//! unused padding).  [`Keyboard`] keeps the held, pressed and released
//! flag sets across scans; the column driving and row sampling themselves
//! happen outside the crate, which hands one full matrix of levels in as
//! plain values.

use vstd::prelude::*;

use crate::debounce::RawLevel;

verus! {

/// Bit mask of the LeftOpt key.
pub const KEY_LEFT_OPT: u64 = 1u64 << 0;

/// Bit mask of the Z key.
pub const KEY_Z: u64 = 1u64 << 1;

/// Bit mask of the C key.
pub const KEY_C: u64 = 1u64 << 2;

/// Bit mask of the B key.
pub const KEY_B: u64 = 1u64 << 3;

/// Bit mask of the M key.
pub const KEY_M: u64 = 1u64 << 4;

/// Bit mask of the Period key.
pub const KEY_PERIOD: u64 = 1u64 << 5;

/// Bit mask of the Space key.
pub const KEY_SPACE: u64 = 1u64 << 6;

/// Bit mask of the LeftShift key.
pub const KEY_LEFT_SHIFT: u64 = 1u64 << 8;

/// Bit mask of the S key.
pub const KEY_S: u64 = 1u64 << 9;

/// Bit mask of the F key.
pub const KEY_F: u64 = 1u64 << 10;

/// Bit mask of the H key.
pub const KEY_H: u64 = 1u64 << 11;

/// Bit mask of the K key.
pub const KEY_K: u64 = 1u64 << 12;

/// Bit mask of the Semicolon key.
pub const KEY_SEMICOLON: u64 = 1u64 << 13;

/// Bit mask of the Enter key.
pub const KEY_ENTER: u64 = 1u64 << 14;

/// Bit mask of the Q key.
pub const KEY_Q: u64 = 1u64 << 16;

/// Bit mask of the E key.
pub const KEY_E: u64 = 1u64 << 17;

/// Bit mask of the T key.
pub const KEY_T: u64 = 1u64 << 18;

/// Bit mask of the U key.
pub const KEY_U: u64 = 1u64 << 19;

/// Bit mask of the O key.
pub const KEY_O: u64 = 1u64 << 20;

/// Bit mask of the OpenSquareBracket key.
pub const KEY_OPEN_SQUARE_BRACKET: u64 = 1u64 << 21;

/// Bit mask of the Backslash key.
pub const KEY_BACKSLASH: u64 = 1u64 << 22;

/// Bit mask of the One key.
pub const KEY_ONE: u64 = 1u64 << 24;

/// Bit mask of the Three key.
pub const KEY_THREE: u64 = 1u64 << 25;

/// Bit mask of the Five key.
pub const KEY_FIVE: u64 = 1u64 << 26;

/// Bit mask of the Seven key.
pub const KEY_SEVEN: u64 = 1u64 << 27;

/// Bit mask of the Nine key.
pub const KEY_NINE: u64 = 1u64 << 28;

/// Bit mask of the Minus key.
pub const KEY_MINUS: u64 = 1u64 << 29;

/// Bit mask of the Backspace key.
pub const KEY_BACKSPACE: u64 = 1u64 << 30;

/// Bit mask of the LeftCtrl key.
pub const KEY_LEFT_CTRL: u64 = 1u64 << 32;

/// Bit mask of the LeftAlt key.
pub const KEY_LEFT_ALT: u64 = 1u64 << 33;

/// Bit mask of the X key.
pub const KEY_X: u64 = 1u64 << 34;

/// Bit mask of the V key.
pub const KEY_V: u64 = 1u64 << 35;

/// Bit mask of the N key.
pub const KEY_N: u64 = 1u64 << 36;

/// Bit mask of the Comma key.
pub const KEY_COMMA: u64 = 1u64 << 37;

/// Bit mask of the Slash key.
pub const KEY_SLASH: u64 = 1u64 << 38;

/// Bit mask of the LeftFn key.
pub const KEY_LEFT_FN: u64 = 1u64 << 40;

/// Bit mask of the A key.
pub const KEY_A: u64 = 1u64 << 41;

/// Bit mask of the D key.
pub const KEY_D: u64 = 1u64 << 42;

/// Bit mask of the G key.
pub const KEY_G: u64 = 1u64 << 43;

/// Bit mask of the J key.
pub const KEY_J: u64 = 1u64 << 44;

/// Bit mask of the L key.
pub const KEY_L: u64 = 1u64 << 45;

/// Bit mask of the Quote key.
pub const KEY_QUOTE: u64 = 1u64 << 46;

/// Bit mask of the Tab key.
pub const KEY_TAB: u64 = 1u64 << 48;

/// Bit mask of the W key.
pub const KEY_W: u64 = 1u64 << 49;

/// Bit mask of the R key.
pub const KEY_R: u64 = 1u64 << 50;

/// Bit mask of the Y key.
pub const KEY_Y: u64 = 1u64 << 51;

/// Bit mask of the I key.
pub const KEY_I: u64 = 1u64 << 52;

/// Bit mask of the P key.
pub const KEY_P: u64 = 1u64 << 53;

/// Bit mask of the CloseSquareBracket key.
pub const KEY_CLOSE_SQUARE_BRACKET: u64 = 1u64 << 54;

/// Bit mask of the Backquote key.
pub const KEY_BACKQUOTE: u64 = 1u64 << 56;

/// Bit mask of the Two key.
pub const KEY_TWO: u64 = 1u64 << 57;

/// Bit mask of the Four key.
pub const KEY_FOUR: u64 = 1u64 << 58;

/// Bit mask of the Six key.
pub const KEY_SIX: u64 = 1u64 << 59;

/// Bit mask of the Eight key.
pub const KEY_EIGHT: u64 = 1u64 << 60;

/// Bit mask of the Zero key.
pub const KEY_ZERO: u64 = 1u64 << 61;

/// Bit mask of the Equal key.
pub const KEY_EQUAL: u64 = 1u64 << 62;

/// A set of physical keys, one bit per key.
#[derive(Debug, Clone, Copy, PartialEq, Eq, Structural)]
pub struct Key {
    /// The raw flag bits, at the positions of the `KEY_` masks.
    pub bits: u64,
}

impl Key {
    /// The empty key set.
    pub fn none() -> (key: Key)
        ensures
            key.bits == 0,
    {
        Key { bits: 0 }
    }

    /// The key set with exactly the bits of `bits`.
    pub fn from_bits(bits: u64) -> (key: Key)
        ensures
            key.bits == bits,
    {
        Key { bits }
    }

    /// Whether every key of `mask` is in this set.
    pub open spec fn spec_contains(self, mask: u64) -> bool {
        self.bits & mask == mask
    }

    /// Whether every key of `mask` is in this set.
    pub fn contains(self, mask: u64) -> (r: bool)
        ensures
            r == self.spec_contains(mask),
    {
        self.bits & mask == mask
    }

    /// The keys in both sets.
    pub fn and(self, other: Key) -> (r: Key)
        ensures
            r.bits == self.bits & other.bits,
    {
        Key { bits: self.bits & other.bits }
    }

    /// The keys in either set.
    pub fn or(self, other: Key) -> (r: Key)
        ensures
            r.bits == self.bits | other.bits,
    {
        Key { bits: self.bits | other.bits }
    }

    /// The keys in exactly one of the sets.
    pub fn xor(self, other: Key) -> (r: Key)
        ensures
            r.bits == self.bits ^ other.bits,
    {
        Key { bits: self.bits ^ other.bits }
    }

    /// The keys not in this set.
    pub fn not(self) -> (r: Key)
        ensures
            r.bits == !self.bits,
    {
        Key { bits: !self.bits }
    }
}

/// The flag-bit position of matrix sample `i`: samples come seven per
/// column, flag bits eight per column.
pub open spec fn spec_matrix_bit(i: int) -> int {
    (i / 7) * 8 + (i % 7)
}

/// The flag set encoded by the first `k` of the 56 matrix samples: a low
/// sample sets the bit at its matrix position.
pub open spec fn spec_decode_matrix(samples: Seq<RawLevel>, k: int) -> u64
    decreases k,
{
    if k <= 0 {
        0u64
    } else {
        spec_decode_matrix(samples, k - 1) | (if samples[k - 1] == RawLevel::Low {
            1u64 << (spec_matrix_bit(k - 1) as u64)
        } else {
            0u64
        })
    }
}

/// What a scan adds to the press buffer: the keys of `mask` are all
/// newly pressed exactly when all are down in the current flag set and
/// none was down in the previous one.
pub proof fn lemma_fresh_press_bits(current: u64, previous: u64, mask: u64)
    ensures
        (((current ^ previous) & current) & mask == mask) <==> (current & mask == mask && previous
            & mask == 0),
{
    assert((((current ^ previous) & current) & mask == mask) <==> (current & mask == mask
        && previous & mask == 0)) by (bit_vector);
}

/// What a scan adds to the release buffer: the keys of `mask` are all
/// newly released exactly when all were down in the previous flag set
/// and none is down in the current one.
pub proof fn lemma_fresh_release_bits(current: u64, previous: u64, mask: u64)
    ensures
        (((current ^ previous) & !current) & mask == mask) <==> (previous & mask == mask && current
            & mask == 0),
{
    assert((((current ^ previous) & !current) & mask == mask) <==> (previous & mask == mask
        && current & mask == 0)) by (bit_vector);
}

/// The key matrix state tracked across scans: the keys held at the last
/// scan, and the buffered presses and releases not yet consumed.
pub struct Keyboard {
    last_state: Key,
    pressed: Key,
    released: Key,
}

impl Keyboard {
    /// The keys held when the matrix was last scanned.
    pub closed spec fn spec_held(&self) -> u64 {
        self.last_state.bits
    }

    /// The buffered presses not yet cleared.
    pub closed spec fn spec_pressed(&self) -> u64 {
        self.pressed.bits
    }

    /// The buffered releases not yet cleared.
    pub closed spec fn spec_released(&self) -> u64 {
        self.released.bits
    }

    /// A fresh matrix state: nothing held, nothing buffered.
    pub fn new() -> (keyboard: Keyboard)
        ensures
            keyboard.spec_held() == 0,
            keyboard.spec_pressed() == 0,
            keyboard.spec_released() == 0,
    {
        Keyboard { last_state: Key::none(), pressed: Key::none(), released: Key::none() }
    }

    /// Fold one full matrix of row samples into the tracked state.
    ///
    /// The decoded flag set becomes the held set; keys down now but not
    /// at the last scan are added to the press buffer, keys up now but
    /// down at the last scan to the release buffer.  This must be called
    /// often (the firmware scans at 100 Hz), or presses between scans are
    /// missed.
    pub fn scan(&mut self, samples: &Vec<RawLevel>)
        requires
            samples@.len() == 56,
        ensures
            final(self).spec_held() == spec_decode_matrix(samples@, 56),
            final(self).spec_pressed() == old(self).spec_pressed() | ((spec_decode_matrix(
                samples@,
                56,
            ) ^ old(self).spec_held()) & spec_decode_matrix(samples@, 56)),
            final(self).spec_released() == old(self).spec_released() | ((spec_decode_matrix(
                samples@,
                56,
            ) ^ old(self).spec_held()) & !spec_decode_matrix(samples@, 56)),
    {
        let mut key_flags: u64 = 0;
        let mut i: usize = 0;
        while i < 56
            invariant
                i <= 56,
                samples@.len() == 56,
                key_flags == spec_decode_matrix(samples@, i as int),
            decreases 56 - i,
        {
            let column = i / 7;
            let row = i % 7;
            let position = column * 8 + row;
            let low = match samples[i] {
                RawLevel::Low => true,
                RawLevel::High => false,
            };
            let bit: u64 = if low {
                1u64 << (position as u64)
            } else {
                0u64
            };
            proof {
                assert(position as int == spec_matrix_bit(i as int));
            }
            key_flags = key_flags | bit;
            i = i + 1;
        }
        let key = Key { bits: key_flags };
        let changes = key.xor(self.last_state);
        let new_presses = changes.and(key);
        self.pressed = self.pressed.or(new_presses);
        let new_releases = changes.and(key.not());
        self.released = self.released.or(new_releases);
        self.last_state = key;
    }

    /// The keys held when [`Keyboard::scan`] last ran.
    pub fn held_keys(&self) -> (keys: Key)
        ensures
            keys.bits == self.spec_held(),
    {
        self.last_state
    }

    /// The buffered presses not yet cleared.
    pub fn pressed_keys(&self) -> (keys: Key)
        ensures
            keys.bits == self.spec_pressed(),
    {
        self.pressed
    }

    /// Empty the press buffer.
    pub fn clear_pressed_keys(&mut self)
        ensures
            final(self).spec_pressed() == 0,
            final(self).spec_held() == old(self).spec_held(),
            final(self).spec_released() == old(self).spec_released(),
    {
        self.pressed = Key::none();
    }

    /// Remove specific keys from the press buffer.
    pub fn clear_some_pressed_keys(&mut self, keys_to_clear: Key)
        ensures
            final(self).spec_pressed() == old(self).spec_pressed() & !keys_to_clear.bits,
            final(self).spec_held() == old(self).spec_held(),
            final(self).spec_released() == old(self).spec_released(),
    {
        self.pressed = self.pressed.and(keys_to_clear.not());
    }

    /// The buffered releases not yet cleared.
    pub fn released_keys(&self) -> (keys: Key)
        ensures
            keys.bits == self.spec_released(),
    {
        self.released
    }

    /// Empty the release buffer.
    pub fn clear_released_keys(&mut self)
        ensures
            final(self).spec_released() == 0,
            final(self).spec_held() == old(self).spec_held(),
            final(self).spec_pressed() == old(self).spec_pressed(),
    {
        self.released = Key::none();
    }

    /// Remove specific keys from the release buffer.
    pub fn clear_some_released_keys(&mut self, keys_to_clear: Key)
        ensures
            final(self).spec_released() == old(self).spec_released() & !keys_to_clear.bits,
            final(self).spec_held() == old(self).spec_held(),
            final(self).spec_pressed() == old(self).spec_pressed(),
    {
        self.released = self.released.and(keys_to_clear.not());
    }
}

} // verus!
