use vstd::prelude::*;

verus! {

/// The closed set of key tags the backend reports. `NoKey` is the "no event"
/// sentinel and the default value.
#[derive(Clone, Copy, Debug, PartialEq, Eq, Structural)]
pub enum KeyType {
    NoKey,
    Char,
    Enter,
    Escape,
    Backspace,
    Tab,
    Left,
    Right,
    Up,
    Down,
    Insert,
    Delete,
    Home,
    End,
    PageUp,
    PageDown,
    F0,
    F1,
    F2,
    F3,
    F4,
    F5,
    F6,
    F7,
    F8,
    F9,
    F10,
    F11,
    F12,
    Resize,
}

/// Three independent modifier booleans; they may combine freely.
#[derive(Clone, Copy, Debug, PartialEq, Eq, Structural)]
pub struct KeyModifiers {
    pub shift: bool,
    pub control: bool,
    pub alt: bool,
}

/// One decoded input event. `code` carries a native-endian four-byte
/// encoding of one Unicode scalar value only when `key_type` is `Char`;
/// for every other tag all four bytes are zero.
#[derive(Clone, Copy, Debug, PartialEq, Eq)]
pub struct Key {
    pub key_type: KeyType,
    pub code: [u8; 4],
    pub modifiers: KeyModifiers,
}

/// Modifiers with none held down.
pub open spec fn no_modifiers() -> KeyModifiers {
    KeyModifiers { shift: false, control: false, alt: false }
}

/// Four zero code bytes, the payload of every non-character key.
pub open spec fn zero_code() -> Seq<u8> {
    seq![0u8, 0u8, 0u8, 0u8]
}

/// The default key: the "no event" answer of a poll.
pub open spec fn is_default_key(k: Key) -> bool {
    &&& k.key_type == KeyType::NoKey
    &&& k.code@ == zero_code()
    &&& k.modifiers == no_modifiers()
}

impl Default for KeyType {
    /// The "no event" sentinel.
    fn default() -> (k: KeyType)
        ensures
            k == KeyType::NoKey,
    {
        KeyType::NoKey
    }
}

impl Default for KeyModifiers {
    /// No modifier held down.
    fn default() -> (m: KeyModifiers)
        ensures
            m == no_modifiers(),
    {
        KeyModifiers { shift: false, control: false, alt: false }
    }
}

impl Default for Key {
    /// The "no event" key: tag `NoKey`, zero code bytes, no modifiers.
    fn default() -> (k: Key)
        ensures
            is_default_key(k),
    {
        let k = Key {
            key_type: KeyType::NoKey,
            code: [0u8, 0u8, 0u8, 0u8],
            modifiers: KeyModifiers { shift: false, control: false, alt: false },
        };
        proof {
            assert(k.code@ =~= zero_code());
        }
        k
    }
}

/// The four bytes of a Unicode scalar value in little-endian order, the
/// native byte order of the targets this backend runs on.
pub open spec fn scalar_bytes(v: u32) -> Seq<u8> {
    seq![
        (v & 0xff) as u8,
        ((v >> 8) & 0xff) as u8,
        ((v >> 16) & 0xff) as u8,
        ((v >> 24) & 0xff) as u8,
    ]
}

/// The Unicode scalar value that four code bytes encode.
pub open spec fn scalar_value(s: Seq<u8>) -> u32
    recommends
        s.len() == 4,
{
    (s[0] as u32) | ((s[1] as u32) << 8) | ((s[2] as u32) << 16) | ((s[3] as u32) << 24)
}

/// Encodes a Unicode scalar value as its four native-endian code bytes.
pub fn encode_scalar(v: u32) -> (r: [u8; 4])
    ensures
        r@ == scalar_bytes(v),
{
    let r = [
        (v & 0xff) as u8,
        ((v >> 8) & 0xff) as u8,
        ((v >> 16) & 0xff) as u8,
        ((v >> 24) & 0xff) as u8,
    ];
    proof {
        assert(r@ =~= scalar_bytes(v));
    }
    r
}

/// Decodes four code bytes back into the Unicode scalar value they encode.
pub fn decode_scalar(code: &[u8; 4]) -> (v: u32)
    ensures
        v == scalar_value(code@),
{
    (code[0] as u32) | ((code[1] as u32) << 8) | ((code[2] as u32) << 16) | ((code[3] as u32) << 24)
}

/// Encoding a scalar value and decoding the bytes again yields the value
/// back: the four code bytes determine the scalar exactly.
pub proof fn lemma_scalar_round_trip(v: u32)
    ensures
        scalar_value(scalar_bytes(v)) == v,
{
    let b0 = (v & 0xff) as u8;
    let b1 = ((v >> 8) & 0xff) as u8;
    let b2 = ((v >> 16) & 0xff) as u8;
    let b3 = ((v >> 24) & 0xff) as u8;
    assert((b0 as u32) | ((b1 as u32) << 8) | ((b2 as u32) << 16) | ((b3 as u32) << 24) == v)
        by (bit_vector)
        requires
            b0 == (v & 0xff) as u8,
            b1 == ((v >> 8) & 0xff) as u8,
            b2 == ((v >> 16) & 0xff) as u8,
            b3 == ((v >> 24) & 0xff) as u8,
    ;
}

/// A character key round-trips: decoding the four code bytes of a translated
/// character key-press yields the character's Unicode scalar value.
pub proof fn lemma_char_code_round_trip(c: char)
    ensures
        scalar_value(scalar_bytes(c as u32)) == c as u32,
{
    lemma_scalar_round_trip(c as u32);
}

} // verus!
