//! Key presses: the key, and the modifier keys held with it.
use vstd::prelude::*;

verus! {

/// A modifier key held with another key.
#[derive(Clone, Copy, Debug, PartialEq, Eq, Structural)]
pub enum KeyModifier {
    Ctrl,
    Alt,
    Shift,
    Super,
}

/// A key, without its modifiers.
#[derive(Clone, Copy, Debug, PartialEq, Eq, Structural)]
pub enum BareKey {
    PageDown,
    PageUp,
    Left,
    Down,
    Up,
    Right,
    Home,
    End,
    Backspace,
    Delete,
    Insert,
    F(u8),
    Char(char),
    Tab,
    Esc,
    Enter,
    CapsLock,
    ScrollLock,
    NumLock,
    PrintScreen,
    Pause,
    Menu,
}

/// A key press: the key and the modifiers held with it.
#[derive(Debug)]
pub struct KeyWithModifier {
    pub bare_key: BareKey,
    pub key_modifiers: Vec<KeyModifier>,
}

impl KeyWithModifier {
    /// Whether no modifier is held.
    pub fn has_no_modifiers(&self) -> (b: bool)
        ensures
            b == (self.key_modifiers@.len() == 0),
    {
        self.key_modifiers.len() == 0
    }

    /// Whether each of `modifiers` is held (others may be held too).
    pub fn has_modifiers(&self, modifiers: &[KeyModifier]) -> (b: bool)
        ensures
            b == (forall|i: int|
                0 <= i < modifiers@.len() ==> self.key_modifiers@.contains(#[trigger] modifiers@[i])),
    {
        let n = modifiers.len();
        let mut i: usize = 0;
        while i < n
            invariant
                i <= n,
                n == modifiers@.len(),
                forall|j: int| 0 <= j < i ==> self.key_modifiers@.contains(#[trigger] modifiers@[j]),
            decreases n - i,
        {
            let wanted = modifiers[i];
            let m = self.key_modifiers.len();
            let mut found = false;
            let mut k: usize = 0;
            while k < m
                invariant
                    k <= m,
                    m == self.key_modifiers@.len(),
                    found ==> self.key_modifiers@.contains(wanted),
                    !found ==> forall|j: int| 0 <= j < k ==> self.key_modifiers@[j] != wanted,
                decreases m - k,
            {
                if self.key_modifiers[k] == wanted {
                    found = true;
                }
                k = k + 1;
            }
            if !found {
                return false;
            }
            i = i + 1;
        }
        true
    }
}

/// Whether the key press holds the modifier `m`.
pub open spec fn holds(key: KeyWithModifier, m: KeyModifier) -> bool {
    key.key_modifiers@.contains(m)
}

/// Whether the key press holds no modifier.
pub open spec fn bare(key: KeyWithModifier) -> bool {
    key.key_modifiers@.len() == 0
}

} // verus!
