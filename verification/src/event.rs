use vstd::prelude::*;
use crate::key::{Key, KeyModifiers, KeyType, encode_scalar, no_modifiers, scalar_bytes, zero_code};

verus! {

/// Bit of the native modifier bitmask that reports a held shift key.
pub const SHIFT_BIT: u8 = 0x01;

/// Bit of the native modifier bitmask that reports a held control key.
pub const CONTROL_BIT: u8 = 0x02;

/// Bit of the native modifier bitmask that reports a held alt key.
pub const ALT_BIT: u8 = 0x04;

/// The native key codes the terminal reports for a key event, as plain
/// values. `Other` stands for every code the backend does not map.
#[derive(Clone, Copy, Debug, PartialEq, Eq)]
pub enum NativeKey {
    Backspace,
    Enter,
    Left,
    Right,
    Up,
    Down,
    Home,
    End,
    PageUp,
    PageDown,
    Tab,
    BackTab,
    Delete,
    Insert,
    Function(u8),
    Char(char),
    Null,
    Escape,
    Other,
}

/// Whether a key event reports a press, a release, or an auto-repeat.
#[derive(Clone, Copy, Debug, PartialEq, Eq, Structural)]
pub enum EventKind {
    Press,
    Release,
    Repeat,
}

/// A native key event: the reported code, the raw modifier bitmask, and the
/// kind of the event.
#[derive(Clone, Copy, Debug, PartialEq, Eq)]
pub struct NativeKeyEvent {
    pub code: NativeKey,
    pub modifiers: u8,
    pub kind: EventKind,
}

/// One native terminal event, as plain values. `Other` stands for every
/// event kind the backend does not handle.
#[derive(Clone, Copy, Debug, PartialEq, Eq)]
pub enum NativeEvent {
    Key(NativeKeyEvent),
    Resize(u32, u32),
    Other,
}

/// Whether the shift bit is present in the native modifier bitmask.
pub open spec fn shift_of(bits: u8) -> bool {
    bits & SHIFT_BIT != 0
}

/// Whether the control bit is present in the native modifier bitmask.
pub open spec fn control_of(bits: u8) -> bool {
    bits & CONTROL_BIT != 0
}

/// Whether the alt bit is present in the native modifier bitmask.
pub open spec fn alt_of(bits: u8) -> bool {
    bits & ALT_BIT != 0
}

/// The modifiers a bitmask reports, each bit extracted independently of the
/// others.
pub open spec fn modifiers_of(bits: u8) -> KeyModifiers {
    KeyModifiers { shift: shift_of(bits), control: control_of(bits), alt: alt_of(bits) }
}

/// The key tag a native key code translates to. Back-tab folds into `Tab`;
/// function keys above twelve, the null code, and unmapped codes all
/// translate to the `NoKey` sentinel.
pub open spec fn key_type_of(code: NativeKey) -> KeyType {
    match code {
        NativeKey::Backspace => KeyType::Backspace,
        NativeKey::Enter => KeyType::Enter,
        NativeKey::Left => KeyType::Left,
        NativeKey::Right => KeyType::Right,
        NativeKey::Up => KeyType::Up,
        NativeKey::Down => KeyType::Down,
        NativeKey::Home => KeyType::Home,
        NativeKey::End => KeyType::End,
        NativeKey::PageUp => KeyType::PageUp,
        NativeKey::PageDown => KeyType::PageDown,
        NativeKey::Tab => KeyType::Tab,
        NativeKey::BackTab => KeyType::Tab,
        NativeKey::Delete => KeyType::Delete,
        NativeKey::Insert => KeyType::Insert,
        NativeKey::Function(n) => function_key_type(n),
        NativeKey::Char(_) => KeyType::Char,
        NativeKey::Null => KeyType::NoKey,
        NativeKey::Escape => KeyType::Escape,
        NativeKey::Other => KeyType::NoKey,
    }
}

/// The tag of function key `n`: `F0` through `F12` for indices up to
/// twelve, the `NoKey` sentinel above that.
pub open spec fn function_key_type(n: u8) -> KeyType {
    if n == 0 { KeyType::F0 }
    else if n == 1 { KeyType::F1 }
    else if n == 2 { KeyType::F2 }
    else if n == 3 { KeyType::F3 }
    else if n == 4 { KeyType::F4 }
    else if n == 5 { KeyType::F5 }
    else if n == 6 { KeyType::F6 }
    else if n == 7 { KeyType::F7 }
    else if n == 8 { KeyType::F8 }
    else if n == 9 { KeyType::F9 }
    else if n == 10 { KeyType::F10 }
    else if n == 11 { KeyType::F11 }
    else if n == 12 { KeyType::F12 }
    else { KeyType::NoKey }
}

/// The code bytes of a translated key press: the native-endian encoding of
/// the character for a character key, four zero bytes for everything else.
pub open spec fn code_bytes_of(code: NativeKey) -> Seq<u8> {
    match code {
        NativeKey::Char(c) => scalar_bytes(c as u32),
        _ => zero_code(),
    }
}

/// The modifiers of a translated key press. Back-tab forces shift on
/// regardless of the reported bits; the null code and unmapped codes
/// discard the reported bits; every other code extracts them bitwise.
pub open spec fn press_modifiers_of(code: NativeKey, bits: u8) -> KeyModifiers {
    match code {
        NativeKey::BackTab => KeyModifiers { shift: true, control: false, alt: false },
        NativeKey::Null => no_modifiers(),
        NativeKey::Other => no_modifiers(),
        NativeKey::Function(n) => if n <= 12 { modifiers_of(bits) } else { no_modifiers() },
        _ => modifiers_of(bits),
    }
}

/// Translating a character key-press yields the `Char` tag together with
/// code bytes that decode back to the character's Unicode scalar value,
/// for every scalar value a `char` can carry.
pub proof fn lemma_char_key_round_trip(c: char)
    ensures
        key_type_of(NativeKey::Char(c)) == KeyType::Char,
        crate::key::scalar_value(code_bytes_of(NativeKey::Char(c))) == c as u32,
{
    crate::key::lemma_scalar_round_trip(c as u32);
}

impl Key {
    /// Translates one native key press into the fixed key encoding: the tag
    /// from the code table, the character bytes only for character keys, and
    /// the modifiers extracted bit by bit (with the back-tab, null-code and
    /// unmapped-code exceptions).
    pub fn from_press(code: NativeKey, modifier_bits: u8) -> (k: Key)
        ensures
            k.key_type == key_type_of(code),
            k.code@ == code_bytes_of(code),
            k.modifiers == press_modifiers_of(code, modifier_bits),
    {
        let modifiers = KeyModifiers {
            shift: modifier_bits & SHIFT_BIT != 0,
            control: modifier_bits & CONTROL_BIT != 0,
            alt: modifier_bits & ALT_BIT != 0,
        };
        let zero = [0u8, 0u8, 0u8, 0u8];
        proof {
            assert(zero@ =~= zero_code());
        }
        match code {
            NativeKey::Backspace => Key { key_type: KeyType::Backspace, code: zero, modifiers },
            NativeKey::Enter => Key { key_type: KeyType::Enter, code: zero, modifiers },
            NativeKey::Left => Key { key_type: KeyType::Left, code: zero, modifiers },
            NativeKey::Right => Key { key_type: KeyType::Right, code: zero, modifiers },
            NativeKey::Up => Key { key_type: KeyType::Up, code: zero, modifiers },
            NativeKey::Down => Key { key_type: KeyType::Down, code: zero, modifiers },
            NativeKey::Home => Key { key_type: KeyType::Home, code: zero, modifiers },
            NativeKey::End => Key { key_type: KeyType::End, code: zero, modifiers },
            NativeKey::PageUp => Key { key_type: KeyType::PageUp, code: zero, modifiers },
            NativeKey::PageDown => Key { key_type: KeyType::PageDown, code: zero, modifiers },
            NativeKey::Tab => Key { key_type: KeyType::Tab, code: zero, modifiers },
            NativeKey::BackTab => Key {
                key_type: KeyType::Tab,
                code: zero,
                modifiers: KeyModifiers { shift: true, control: false, alt: false },
            },
            NativeKey::Delete => Key { key_type: KeyType::Delete, code: zero, modifiers },
            NativeKey::Insert => Key { key_type: KeyType::Insert, code: zero, modifiers },
            NativeKey::Function(n) => {
                let key_type = if n == 0 { KeyType::F0 }
                    else if n == 1 { KeyType::F1 }
                    else if n == 2 { KeyType::F2 }
                    else if n == 3 { KeyType::F3 }
                    else if n == 4 { KeyType::F4 }
                    else if n == 5 { KeyType::F5 }
                    else if n == 6 { KeyType::F6 }
                    else if n == 7 { KeyType::F7 }
                    else if n == 8 { KeyType::F8 }
                    else if n == 9 { KeyType::F9 }
                    else if n == 10 { KeyType::F10 }
                    else if n == 11 { KeyType::F11 }
                    else if n == 12 { KeyType::F12 }
                    else { KeyType::NoKey };
                if n <= 12 {
                    Key { key_type, code: zero, modifiers }
                } else {
                    Key {
                        key_type: KeyType::NoKey,
                        code: zero,
                        modifiers: KeyModifiers { shift: false, control: false, alt: false },
                    }
                }
            },
            NativeKey::Char(c) => Key {
                key_type: KeyType::Char,
                code: encode_scalar(c as u32),
                modifiers,
            },
            NativeKey::Null => Key {
                key_type: KeyType::NoKey,
                code: zero,
                modifiers: KeyModifiers { shift: false, control: false, alt: false },
            },
            NativeKey::Escape => Key { key_type: KeyType::Escape, code: zero, modifiers },
            NativeKey::Other => Key {
                key_type: KeyType::NoKey,
                code: zero,
                modifiers: KeyModifiers { shift: false, control: false, alt: false },
            },
        }
    }
}

} // verus!
