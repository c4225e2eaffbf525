//! Modifier tracking and key-to-character decoding.
//!
//! [`KeyboardState`] tracks the four modifier latches (shift, ctrl, alt
//! and the function key) across scans, decodes a single pressed key into
//! the character it produces on the US QWERTY layout — plain or shifted —
//! and recognises the special editing keys.  [`edit_step`] is one tick of
//! the scan task's text editing: fold the pressed key set into the
//! modifiers, then let the set edit a bounded text buffer, handing a
//! finished line back on enter.
//!
//! A key set with more than one key down decodes to no character and no
//! special key: the decoders compare the whole set against one key at a
//! time.

use vstd::prelude::*;

use crate::keyboard::Key;
use crate::keyboard::KEY_A;
use crate::keyboard::KEY_B;
use crate::keyboard::KEY_BACKQUOTE;
use crate::keyboard::KEY_BACKSLASH;
use crate::keyboard::KEY_BACKSPACE;
use crate::keyboard::KEY_C;
use crate::keyboard::KEY_CLOSE_SQUARE_BRACKET;
use crate::keyboard::KEY_COMMA;
use crate::keyboard::KEY_D;
use crate::keyboard::KEY_E;
use crate::keyboard::KEY_EIGHT;
use crate::keyboard::KEY_ENTER;
use crate::keyboard::KEY_EQUAL;
use crate::keyboard::KEY_F;
use crate::keyboard::KEY_FIVE;
use crate::keyboard::KEY_FOUR;
use crate::keyboard::KEY_G;
use crate::keyboard::KEY_H;
use crate::keyboard::KEY_I;
use crate::keyboard::KEY_J;
use crate::keyboard::KEY_K;
use crate::keyboard::KEY_L;
use crate::keyboard::KEY_LEFT_ALT;
use crate::keyboard::KEY_LEFT_CTRL;
use crate::keyboard::KEY_LEFT_FN;
use crate::keyboard::KEY_LEFT_SHIFT;
use crate::keyboard::KEY_M;
use crate::keyboard::KEY_MINUS;
use crate::keyboard::KEY_N;
use crate::keyboard::KEY_NINE;
use crate::keyboard::KEY_O;
use crate::keyboard::KEY_ONE;
use crate::keyboard::KEY_OPEN_SQUARE_BRACKET;
use crate::keyboard::KEY_P;
use crate::keyboard::KEY_PERIOD;
use crate::keyboard::KEY_Q;
use crate::keyboard::KEY_QUOTE;
use crate::keyboard::KEY_R;
use crate::keyboard::KEY_S;
use crate::keyboard::KEY_SEMICOLON;
use crate::keyboard::KEY_SEVEN;
use crate::keyboard::KEY_SIX;
use crate::keyboard::KEY_SLASH;
use crate::keyboard::KEY_SPACE;
use crate::keyboard::KEY_T;
use crate::keyboard::KEY_TAB;
use crate::keyboard::KEY_THREE;
use crate::keyboard::KEY_TWO;
use crate::keyboard::KEY_U;
use crate::keyboard::KEY_V;
use crate::keyboard::KEY_W;
use crate::keyboard::KEY_X;
use crate::keyboard::KEY_Y;
use crate::keyboard::KEY_Z;
use crate::keyboard::KEY_ZERO;

verus! {

/// The non-printing editing keys the scan task reacts to.
#[derive(Debug, Clone, Copy, PartialEq, Eq, Structural)]
pub enum SpecialKey {
    /// Submit the current line.
    Enter,
    /// Insert a tabulator.
    Tab,
    /// Delete the last character of the line.
    Backspace,
}

/// How many characters the scan task's text buffer can hold.
pub const TEXT_BUFFER_CAPACITY: usize = 256;

/// The character a single pressed key produces without shift, on the US
/// QWERTY layout; `None` for anything but exactly one printable key.
pub open spec fn spec_char_normal(bits: u64) -> Option<char> {
    if bits == KEY_Q {
        Some('q')
    } else if bits == KEY_W {
        Some('w')
    } else if bits == KEY_E {
        Some('e')
    } else if bits == KEY_R {
        Some('r')
    } else if bits == KEY_T {
        Some('t')
    } else if bits == KEY_Y {
        Some('y')
    } else if bits == KEY_U {
        Some('u')
    } else if bits == KEY_I {
        Some('i')
    } else if bits == KEY_O {
        Some('o')
    } else if bits == KEY_P {
        Some('p')
    } else if bits == KEY_A {
        Some('a')
    } else if bits == KEY_S {
        Some('s')
    } else if bits == KEY_D {
        Some('d')
    } else if bits == KEY_F {
        Some('f')
    } else if bits == KEY_G {
        Some('g')
    } else if bits == KEY_H {
        Some('h')
    } else if bits == KEY_J {
        Some('j')
    } else if bits == KEY_K {
        Some('k')
    } else if bits == KEY_L {
        Some('l')
    } else if bits == KEY_Z {
        Some('z')
    } else if bits == KEY_X {
        Some('x')
    } else if bits == KEY_C {
        Some('c')
    } else if bits == KEY_V {
        Some('v')
    } else if bits == KEY_B {
        Some('b')
    } else if bits == KEY_N {
        Some('n')
    } else if bits == KEY_M {
        Some('m')
    } else if bits == KEY_ONE {
        Some('1')
    } else if bits == KEY_TWO {
        Some('2')
    } else if bits == KEY_THREE {
        Some('3')
    } else if bits == KEY_FOUR {
        Some('4')
    } else if bits == KEY_FIVE {
        Some('5')
    } else if bits == KEY_SIX {
        Some('6')
    } else if bits == KEY_SEVEN {
        Some('7')
    } else if bits == KEY_EIGHT {
        Some('8')
    } else if bits == KEY_NINE {
        Some('9')
    } else if bits == KEY_ZERO {
        Some('0')
    } else if bits == KEY_SPACE {
        Some(' ')
    } else if bits == KEY_MINUS {
        Some('-')
    } else if bits == KEY_EQUAL {
        Some('=')
    } else if bits == KEY_OPEN_SQUARE_BRACKET {
        Some('[')
    } else if bits == KEY_CLOSE_SQUARE_BRACKET {
        Some(']')
    } else if bits == KEY_BACKSLASH {
        Some('\\')
    } else if bits == KEY_SEMICOLON {
        Some(';')
    } else if bits == KEY_QUOTE {
        Some('\'')
    } else if bits == KEY_BACKQUOTE {
        Some('`')
    } else if bits == KEY_COMMA {
        Some(',')
    } else if bits == KEY_PERIOD {
        Some('.')
    } else if bits == KEY_SLASH {
        Some('/')
    } else {
        None
    }
}

/// The character a single pressed key produces with shift held, on the
/// US QWERTY layout; `None` for anything but exactly one printable key.
pub open spec fn spec_char_shifted(bits: u64) -> Option<char> {
    if bits == KEY_Q {
        Some('Q')
    } else if bits == KEY_W {
        Some('W')
    } else if bits == KEY_E {
        Some('E')
    } else if bits == KEY_R {
        Some('R')
    } else if bits == KEY_T {
        Some('T')
    } else if bits == KEY_Y {
        Some('Y')
    } else if bits == KEY_U {
        Some('U')
    } else if bits == KEY_I {
        Some('I')
    } else if bits == KEY_O {
        Some('O')
    } else if bits == KEY_P {
        Some('P')
    } else if bits == KEY_A {
        Some('A')
    } else if bits == KEY_S {
        Some('S')
    } else if bits == KEY_D {
        Some('D')
    } else if bits == KEY_F {
        Some('F')
    } else if bits == KEY_G {
        Some('G')
    } else if bits == KEY_H {
        Some('H')
    } else if bits == KEY_J {
        Some('J')
    } else if bits == KEY_K {
        Some('K')
    } else if bits == KEY_L {
        Some('L')
    } else if bits == KEY_Z {
        Some('Z')
    } else if bits == KEY_X {
        Some('X')
    } else if bits == KEY_C {
        Some('C')
    } else if bits == KEY_V {
        Some('V')
    } else if bits == KEY_B {
        Some('B')
    } else if bits == KEY_N {
        Some('N')
    } else if bits == KEY_M {
        Some('M')
    } else if bits == KEY_ONE {
        Some('!')
    } else if bits == KEY_TWO {
        Some('@')
    } else if bits == KEY_THREE {
        Some('#')
    } else if bits == KEY_FOUR {
        Some('$')
    } else if bits == KEY_FIVE {
        Some('%')
    } else if bits == KEY_SIX {
        Some('^')
    } else if bits == KEY_SEVEN {
        Some('&')
    } else if bits == KEY_EIGHT {
        Some('*')
    } else if bits == KEY_NINE {
        Some('(')
    } else if bits == KEY_ZERO {
        Some(')')
    } else if bits == KEY_MINUS {
        Some('_')
    } else if bits == KEY_EQUAL {
        Some('+')
    } else if bits == KEY_OPEN_SQUARE_BRACKET {
        Some('{')
    } else if bits == KEY_CLOSE_SQUARE_BRACKET {
        Some('}')
    } else if bits == KEY_BACKSLASH {
        Some('|')
    } else if bits == KEY_SEMICOLON {
        Some(':')
    } else if bits == KEY_QUOTE {
        Some('"')
    } else if bits == KEY_BACKQUOTE {
        Some('~')
    } else if bits == KEY_COMMA {
        Some('<')
    } else if bits == KEY_PERIOD {
        Some('>')
    } else if bits == KEY_SLASH {
        Some('?')
    } else {
        None
    }
}

/// The character a single pressed key produces under the given shift
/// state.
pub open spec fn spec_key_to_char(shift: bool, bits: u64) -> Option<char> {
    if shift {
        spec_char_shifted(bits)
    } else {
        spec_char_normal(bits)
    }
}

/// The special editing key a pressed key set means; `None` for anything
/// but exactly one special key.
pub open spec fn spec_special_key(bits: u64) -> Option<SpecialKey> {
    if bits == KEY_ENTER {
        Some(SpecialKey::Enter)
    } else if bits == KEY_TAB {
        Some(SpecialKey::Tab)
    } else if bits == KEY_BACKSPACE {
        Some(SpecialKey::Backspace)
    } else {
        None
    }
}

/// The four modifier latches tracked across scans.
pub struct KeyboardState {
    shift: bool,
    ctrl: bool,
    alt: bool,
    fn_key: bool,
}

impl KeyboardState {
    /// Whether shift is latched.
    pub closed spec fn spec_shift(&self) -> bool {
        self.shift
    }

    /// Whether ctrl is latched.
    pub closed spec fn spec_ctrl(&self) -> bool {
        self.ctrl
    }

    /// Whether alt is latched.
    pub closed spec fn spec_alt(&self) -> bool {
        self.alt
    }

    /// Whether the function key is latched.
    pub closed spec fn spec_fn_key(&self) -> bool {
        self.fn_key
    }

    /// A fresh state with no modifier latched.
    pub fn new() -> (state: Self)
        ensures
            !state.spec_shift(),
            !state.spec_ctrl(),
            !state.spec_alt(),
            !state.spec_fn_key(),
    {
        KeyboardState { shift: false, ctrl: false, alt: false, fn_key: false }
    }

    /// Latch every modifier present in the pressed key set; absent
    /// modifiers stay as they were.
    pub fn update_modifiers(&mut self, key: Key)
        ensures
            final(self).spec_shift() == (old(self).spec_shift() || key.spec_contains(
                KEY_LEFT_SHIFT,
            )),
            final(self).spec_ctrl() == (old(self).spec_ctrl() || key.spec_contains(KEY_LEFT_CTRL)),
            final(self).spec_alt() == (old(self).spec_alt() || key.spec_contains(KEY_LEFT_ALT)),
            final(self).spec_fn_key() == (old(self).spec_fn_key() || key.spec_contains(
                KEY_LEFT_FN,
            )),
    {
        if key.contains(KEY_LEFT_SHIFT) {
            self.shift = true;
        }
        if key.contains(KEY_LEFT_CTRL) {
            self.ctrl = true;
        }
        if key.contains(KEY_LEFT_ALT) {
            self.alt = true;
        }
        if key.contains(KEY_LEFT_FN) {
            self.fn_key = true;
        }
    }

    /// Release every modifier absent from the held key set; modifiers
    /// still held stay latched.
    pub fn clear_modifiers(&mut self, key: Key)
        ensures
            final(self).spec_shift() == (old(self).spec_shift() && key.spec_contains(
                KEY_LEFT_SHIFT,
            )),
            final(self).spec_ctrl() == (old(self).spec_ctrl() && key.spec_contains(KEY_LEFT_CTRL)),
            final(self).spec_alt() == (old(self).spec_alt() && key.spec_contains(KEY_LEFT_ALT)),
            final(self).spec_fn_key() == (old(self).spec_fn_key() && key.spec_contains(
                KEY_LEFT_FN,
            )),
    {
        if !key.contains(KEY_LEFT_SHIFT) {
            self.shift = false;
        }
        if !key.contains(KEY_LEFT_CTRL) {
            self.ctrl = false;
        }
        if !key.contains(KEY_LEFT_ALT) {
            self.alt = false;
        }
        if !key.contains(KEY_LEFT_FN) {
            self.fn_key = false;
        }
    }

    /// Decode a single pressed key into its character under the current
    /// shift latch.
    pub fn key_to_char(&self, key: Key) -> (decoded: Option<char>)
        ensures
            decoded == spec_key_to_char(self.spec_shift(), key.bits),
    {
        if self.shift {
            self.key_to_char_shifted(key)
        } else {
            self.key_to_char_normal(key)
        }
    }

    fn key_to_char_normal(&self, key: Key) -> (decoded: Option<char>)
        ensures
            decoded == spec_char_normal(key.bits),
    {
        if key.bits == KEY_Q {
            Some('q')
        } else if key.bits == KEY_W {
            Some('w')
        } else if key.bits == KEY_E {
            Some('e')
        } else if key.bits == KEY_R {
            Some('r')
        } else if key.bits == KEY_T {
            Some('t')
        } else if key.bits == KEY_Y {
            Some('y')
        } else if key.bits == KEY_U {
            Some('u')
        } else if key.bits == KEY_I {
            Some('i')
        } else if key.bits == KEY_O {
            Some('o')
        } else if key.bits == KEY_P {
            Some('p')
        } else if key.bits == KEY_A {
            Some('a')
        } else if key.bits == KEY_S {
            Some('s')
        } else if key.bits == KEY_D {
            Some('d')
        } else if key.bits == KEY_F {
            Some('f')
        } else if key.bits == KEY_G {
            Some('g')
        } else if key.bits == KEY_H {
            Some('h')
        } else if key.bits == KEY_J {
            Some('j')
        } else if key.bits == KEY_K {
            Some('k')
        } else if key.bits == KEY_L {
            Some('l')
        } else if key.bits == KEY_Z {
            Some('z')
        } else if key.bits == KEY_X {
            Some('x')
        } else if key.bits == KEY_C {
            Some('c')
        } else if key.bits == KEY_V {
            Some('v')
        } else if key.bits == KEY_B {
            Some('b')
        } else if key.bits == KEY_N {
            Some('n')
        } else if key.bits == KEY_M {
            Some('m')
        } else if key.bits == KEY_ONE {
            Some('1')
        } else if key.bits == KEY_TWO {
            Some('2')
        } else if key.bits == KEY_THREE {
            Some('3')
        } else if key.bits == KEY_FOUR {
            Some('4')
        } else if key.bits == KEY_FIVE {
            Some('5')
        } else if key.bits == KEY_SIX {
            Some('6')
        } else if key.bits == KEY_SEVEN {
            Some('7')
        } else if key.bits == KEY_EIGHT {
            Some('8')
        } else if key.bits == KEY_NINE {
            Some('9')
        } else if key.bits == KEY_ZERO {
            Some('0')
        } else if key.bits == KEY_SPACE {
            Some(' ')
        } else if key.bits == KEY_MINUS {
            Some('-')
        } else if key.bits == KEY_EQUAL {
            Some('=')
        } else if key.bits == KEY_OPEN_SQUARE_BRACKET {
            Some('[')
        } else if key.bits == KEY_CLOSE_SQUARE_BRACKET {
            Some(']')
        } else if key.bits == KEY_BACKSLASH {
            Some('\\')
        } else if key.bits == KEY_SEMICOLON {
            Some(';')
        } else if key.bits == KEY_QUOTE {
            Some('\'')
        } else if key.bits == KEY_BACKQUOTE {
            Some('`')
        } else if key.bits == KEY_COMMA {
            Some(',')
        } else if key.bits == KEY_PERIOD {
            Some('.')
        } else if key.bits == KEY_SLASH {
            Some('/')
        } else {
            None
        }
    }

    fn key_to_char_shifted(&self, key: Key) -> (decoded: Option<char>)
        ensures
            decoded == spec_char_shifted(key.bits),
    {
        if key.bits == KEY_Q {
            Some('Q')
        } else if key.bits == KEY_W {
            Some('W')
        } else if key.bits == KEY_E {
            Some('E')
        } else if key.bits == KEY_R {
            Some('R')
        } else if key.bits == KEY_T {
            Some('T')
        } else if key.bits == KEY_Y {
            Some('Y')
        } else if key.bits == KEY_U {
            Some('U')
        } else if key.bits == KEY_I {
            Some('I')
        } else if key.bits == KEY_O {
            Some('O')
        } else if key.bits == KEY_P {
            Some('P')
        } else if key.bits == KEY_A {
            Some('A')
        } else if key.bits == KEY_S {
            Some('S')
        } else if key.bits == KEY_D {
            Some('D')
        } else if key.bits == KEY_F {
            Some('F')
        } else if key.bits == KEY_G {
            Some('G')
        } else if key.bits == KEY_H {
            Some('H')
        } else if key.bits == KEY_J {
            Some('J')
        } else if key.bits == KEY_K {
            Some('K')
        } else if key.bits == KEY_L {
            Some('L')
        } else if key.bits == KEY_Z {
            Some('Z')
        } else if key.bits == KEY_X {
            Some('X')
        } else if key.bits == KEY_C {
            Some('C')
        } else if key.bits == KEY_V {
            Some('V')
        } else if key.bits == KEY_B {
            Some('B')
        } else if key.bits == KEY_N {
            Some('N')
        } else if key.bits == KEY_M {
            Some('M')
        } else if key.bits == KEY_ONE {
            Some('!')
        } else if key.bits == KEY_TWO {
            Some('@')
        } else if key.bits == KEY_THREE {
            Some('#')
        } else if key.bits == KEY_FOUR {
            Some('$')
        } else if key.bits == KEY_FIVE {
            Some('%')
        } else if key.bits == KEY_SIX {
            Some('^')
        } else if key.bits == KEY_SEVEN {
            Some('&')
        } else if key.bits == KEY_EIGHT {
            Some('*')
        } else if key.bits == KEY_NINE {
            Some('(')
        } else if key.bits == KEY_ZERO {
            Some(')')
        } else if key.bits == KEY_MINUS {
            Some('_')
        } else if key.bits == KEY_EQUAL {
            Some('+')
        } else if key.bits == KEY_OPEN_SQUARE_BRACKET {
            Some('{')
        } else if key.bits == KEY_CLOSE_SQUARE_BRACKET {
            Some('}')
        } else if key.bits == KEY_BACKSLASH {
            Some('|')
        } else if key.bits == KEY_SEMICOLON {
            Some(':')
        } else if key.bits == KEY_QUOTE {
            Some('"')
        } else if key.bits == KEY_BACKQUOTE {
            Some('~')
        } else if key.bits == KEY_COMMA {
            Some('<')
        } else if key.bits == KEY_PERIOD {
            Some('>')
        } else if key.bits == KEY_SLASH {
            Some('?')
        } else {
            None
        }
    }

    /// Recognise a pressed special editing key.
    pub fn handle_special_key(&self, key: Key) -> (special: Option<SpecialKey>)
        ensures
            special == spec_special_key(key.bits),
    {
        if key.bits == KEY_ENTER {
            Some(SpecialKey::Enter)
        } else if key.bits == KEY_TAB {
            Some(SpecialKey::Tab)
        } else if key.bits == KEY_BACKSPACE {
            Some(SpecialKey::Backspace)
        } else {
            None
        }
    }
}

/// One editing tick of the keyboard scan task.
///
/// The pressed key set first latches the modifiers, then edits the text
/// line: enter submits the whole line and empties the buffer, tab and any
/// printable key append (silently dropped when the buffer is full),
/// backspace removes the last character, and anything else leaves the
/// line alone.
pub fn edit_step(state: &mut KeyboardState, buffer: &mut Vec<char>, key_set: Key) -> (submitted:
    Option<Vec<char>>)
    requires
        old(buffer)@.len() <= TEXT_BUFFER_CAPACITY,
    ensures
        final(state).spec_shift() == (old(state).spec_shift() || key_set.spec_contains(
            KEY_LEFT_SHIFT,
        )),
        final(state).spec_ctrl() == (old(state).spec_ctrl() || key_set.spec_contains(
            KEY_LEFT_CTRL,
        )),
        final(state).spec_alt() == (old(state).spec_alt() || key_set.spec_contains(KEY_LEFT_ALT)),
        final(state).spec_fn_key() == (old(state).spec_fn_key() || key_set.spec_contains(
            KEY_LEFT_FN,
        )),
        final(buffer)@.len() <= TEXT_BUFFER_CAPACITY,
        spec_special_key(key_set.bits) == Some(SpecialKey::Enter) ==> {
            &&& submitted matches Some(line) && line@ == old(buffer)@
            &&& final(buffer)@.len() == 0
        },
        spec_special_key(key_set.bits) == Some(SpecialKey::Tab) ==> submitted is None
            && final(buffer)@ == (if old(buffer)@.len() < TEXT_BUFFER_CAPACITY {
            old(buffer)@.push('\t')
        } else {
            old(buffer)@
        }),
        spec_special_key(key_set.bits) == Some(SpecialKey::Backspace) ==> submitted is None
            && final(buffer)@ == (if old(buffer)@.len() > 0 {
            old(buffer)@.drop_last()
        } else {
            old(buffer)@
        }),
        spec_special_key(key_set.bits) is None ==> submitted is None && final(buffer)@ == (
        match spec_key_to_char(
            old(state).spec_shift() || key_set.spec_contains(KEY_LEFT_SHIFT),
            key_set.bits,
        ) {
            Some(decoded) => if old(buffer)@.len() < TEXT_BUFFER_CAPACITY {
                old(buffer)@.push(decoded)
            } else {
                old(buffer)@
            },
            None => old(buffer)@,
        }),
{
    state.update_modifiers(key_set);
    match state.handle_special_key(key_set) {
        Some(SpecialKey::Enter) => {
            let mut line: Vec<char> = Vec::new();
            let mut i: usize = 0;
            while i < buffer.len()
                invariant
                    i <= buffer@.len(),
                    line@ == buffer@.take(i as int),
                decreases buffer@.len() - i,
            {
                line.push(buffer[i]);
                proof {
                    assert(line@ =~= buffer@.take(i + 1));
                }
                i = i + 1;
            }
            proof {
                assert(line@ =~= buffer@);
            }
            buffer.clear();
            Some(line)
        },
        Some(SpecialKey::Tab) => {
            if buffer.len() < TEXT_BUFFER_CAPACITY {
                buffer.push('\t');
            }
            None
        },
        Some(SpecialKey::Backspace) => {
            if buffer.len() > 0 {
                buffer.pop();
            }
            None
        },
        None => {
            match state.key_to_char(key_set) {
                Some(decoded) => {
                    if buffer.len() < TEXT_BUFFER_CAPACITY {
                        buffer.push(decoded);
                    }
                },
                None => {},
            }
            None
        },
    }
}

} // verus!
