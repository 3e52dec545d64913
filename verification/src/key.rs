//! Key presses as plain values: which key, and which modifiers were held.

use vstd::prelude::*;

verus! {

/// The Shift bit of [`KeyEvent::modifiers`].
pub const SHIFT: u8 = 1;

/// The Control bit of [`KeyEvent::modifiers`].
pub const CONTROL: u8 = 2;

/// The Alt bit of [`KeyEvent::modifiers`].
pub const ALT: u8 = 4;

/// The Super bit of [`KeyEvent::modifiers`].
pub const SUPER: u8 = 8;

/// The Hyper bit of [`KeyEvent::modifiers`].
pub const HYPER: u8 = 16;

/// The Meta bit of [`KeyEvent::modifiers`].
pub const META: u8 = 32;

/// The key that was pressed.
#[derive(Debug, Clone, Copy, PartialEq, Eq, Structural)]
pub enum KeyCode {
    Backspace,
    Enter,
    Left,
    Right,
    Up,
    Down,
    Home,
    End,
    PageUp,
    PageDown,
    Tab,
    BackTab,
    Delete,
    Insert,
    /// A function key, by its number.
    F(u8),
    /// A character key.
    Char(char),
    Null,
    Esc,
    CapsLock,
    ScrollLock,
    NumLock,
    PrintScreen,
    Pause,
    Menu,
    KeypadBegin,
    /// A media key, by its position in the terminal library's list.
    Media(u8),
    /// A modifier key pressed on its own, by its position in the terminal
    /// library's list.
    Modifier(u8),
}

/// One key press: the key and the modifiers held with it, one bit each.
#[derive(Debug, Clone, Copy, PartialEq, Eq, Structural)]
pub struct KeyEvent {
    pub code: KeyCode,
    pub modifiers: u8,
}

/// Whether `c` is one of `A` to `Z`.
pub open spec fn is_ascii_upper(c: char) -> bool {
    'A' <= c && c <= 'Z'
}

/// Whether `c` is one of `a` to `z`.
pub open spec fn is_ascii_lower(c: char) -> bool {
    'a' <= c && c <= 'z'
}

/// `c` as a capital letter if it is one of `a` to `z`, else `c` itself.
pub open spec fn ascii_upper(c: char) -> char {
    if is_ascii_lower(c) {
        ((c as u8 - 32) as u8) as char
    } else {
        c
    }
}

impl KeyEvent {
    /// A key press with the given modifiers.
    pub fn new(code: KeyCode, modifiers: u8) -> (key: KeyEvent)
        ensures
            key == (KeyEvent { code, modifiers }),
    {
        KeyEvent { code, modifiers }
    }

    /// The form in which two presses of the same key are equal: a capital
    /// letter always carries Shift, and a letter typed with Shift is the
    /// capital. Keys other than characters are left as they are.
    pub open spec fn normalized(self) -> KeyEvent {
        match self.code {
            KeyCode::Char(c) => {
                if is_ascii_upper(c) {
                    KeyEvent { code: self.code, modifiers: self.modifiers | SHIFT }
                } else if self.modifiers & SHIFT != 0 {
                    KeyEvent { code: KeyCode::Char(ascii_upper(c)), modifiers: self.modifiers }
                } else {
                    self
                }
            },
            _ => self,
        }
    }

    /// Whether two presses are the same key.
    pub open spec fn same_key(self, other: KeyEvent) -> bool {
        self.normalized() == other.normalized()
    }

    /// Brings a key press into its normal form.
    pub fn normalize(self) -> (key: KeyEvent)
        ensures
            key == self.normalized(),
    {
        match self.code {
            KeyCode::Char(c) => {
                if 'A' <= c && c <= 'Z' {
                    KeyEvent { code: self.code, modifiers: self.modifiers | SHIFT }
                } else if self.modifiers & SHIFT != 0 {
                    if 'a' <= c && c <= 'z' {
                        let upper: u8 = c as u8 - 32;
                        KeyEvent { code: KeyCode::Char(upper as char), modifiers: self.modifiers }
                    } else {
                        self
                    }
                } else {
                    self
                }
            },
            _ => self,
        }
    }

    /// Whether `self` and `other` are the same key.
    pub fn matches(&self, other: &KeyEvent) -> (same: bool)
        ensures
            same == self.same_key(*other),
    {
        self.normalize() == other.normalize()
    }
}

/// Whether two sequences of key presses are the same, key by key.
pub open spec fn same_keys(a: Seq<KeyEvent>, b: Seq<KeyEvent>) -> bool {
    a.len() == b.len() && forall|i: int| 0 <= i < a.len() ==> (#[trigger] a[i]).same_key(b[i])
}

/// Whether two sequences of key presses are the same, key by key.
pub fn keys_match(a: &Vec<KeyEvent>, b: &Vec<KeyEvent>) -> (same: bool)
    ensures
        same == same_keys(a@, b@),
{
    if a.len() != b.len() {
        return false;
    }
    let mut i: usize = 0;
    while i < a.len()
        invariant
            a.len() == b.len(),
            i <= a.len(),
            forall|j: int| 0 <= j < i ==> (#[trigger] a[j]).same_key(b[j]),
        decreases a.len() - i,
    {
        if !a[i].matches(&b[i]) {
            return false;
        }
        i = i + 1;
    }
    true
}

} // verus!
