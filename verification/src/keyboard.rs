//! The keys that the controls press on the desktop's keyboard.

use vstd::prelude::*;

verus! {

/// A key that a control of the page presses.
#[derive(Clone, Copy, PartialEq, Eq, Structural, Debug)]
pub enum KeyCode {
    Space,
    Right,
    Left,
    PlayPause,
    Next,
    Prev,
    Stop,
}

/// One event of the keyboard: the key goes down, or comes up.
#[derive(Clone, Copy, PartialEq, Eq, Structural, Debug)]
pub struct KeyStroke {
    /// The Windows virtual-key code of the key.
    pub virtual_key: u16,
    /// Whether the key comes up (else it goes down).
    pub key_up: bool,
}

/// The Windows virtual-key code of a key (`VK_SPACE`, `VK_RIGHT`, `VK_LEFT`,
/// `VK_MEDIA_PLAY_PAUSE`, `VK_MEDIA_NEXT_TRACK`, `VK_MEDIA_PREV_TRACK`,
/// `VK_MEDIA_STOP`).
pub open spec fn virtual_key_of(key: KeyCode) -> u16 {
    match key {
        KeyCode::Space => 0x20,
        KeyCode::Right => 0x27,
        KeyCode::Left => 0x25,
        KeyCode::PlayPause => 0xB3,
        KeyCode::Next => 0xB0,
        KeyCode::Prev => 0xB1,
        KeyCode::Stop => 0xB2,
    }
}

impl KeyCode {
    /// The Windows virtual-key code of the key.
    pub fn virtual_key(self) -> (code: u16)
        ensures
            code == virtual_key_of(self),
    {
        match self {
            KeyCode::Space => 0x20,
            KeyCode::Right => 0x27,
            KeyCode::Left => 0x25,
            KeyCode::PlayPause => 0xB3,
            KeyCode::Next => 0xB0,
            KeyCode::Prev => 0xB1,
            KeyCode::Stop => 0xB2,
        }
    }
}

/// The keyboard events of one tap of `key`: the key goes down, then comes up.
pub fn tap_strokes(key: KeyCode) -> (strokes: (KeyStroke, KeyStroke))
    ensures
        strokes.0 == (KeyStroke { virtual_key: virtual_key_of(key), key_up: false }),
        strokes.1 == (KeyStroke { virtual_key: virtual_key_of(key), key_up: true }),
{
    let code = key.virtual_key();
    (KeyStroke { virtual_key: code, key_up: false }, KeyStroke { virtual_key: code, key_up: true })
}

/// Different keys have different virtual-key codes: no control presses a key
/// that another control stands for.
pub proof fn lemma_virtual_keys_distinct(a: KeyCode, b: KeyCode)
    ensures
        virtual_key_of(a) == virtual_key_of(b) <==> a == b,
{
}

} // verus!
