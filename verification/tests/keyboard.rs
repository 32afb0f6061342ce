use media_remote::keyboard::{tap_strokes, KeyCode, KeyStroke};

#[test]
fn virtual_keys_are_the_windows_codes() {
    // VK_SPACE, VK_RIGHT, VK_LEFT, VK_MEDIA_PLAY_PAUSE, VK_MEDIA_NEXT_TRACK,
    // VK_MEDIA_PREV_TRACK, VK_MEDIA_STOP
    assert_eq!(KeyCode::Space.virtual_key(), 32);
    assert_eq!(KeyCode::Right.virtual_key(), 39);
    assert_eq!(KeyCode::Left.virtual_key(), 37);
    assert_eq!(KeyCode::PlayPause.virtual_key(), 179);
    assert_eq!(KeyCode::Next.virtual_key(), 176);
    assert_eq!(KeyCode::Prev.virtual_key(), 177);
    assert_eq!(KeyCode::Stop.virtual_key(), 178);
}

#[test]
fn virtual_key_values() {
    assert_eq!(KeyCode::Space.virtual_key(), 0x20);
    assert_eq!(KeyCode::Next.virtual_key(), 0xB0);
}

#[test]
fn a_tap_presses_then_releases() {
    let (down, up) = tap_strokes(KeyCode::PlayPause);
    assert_eq!(down, KeyStroke { virtual_key: 0xB3, key_up: false });
    assert_eq!(up, KeyStroke { virtual_key: 0xB3, key_up: true });
}

#[test]
fn keys_have_distinct_codes() {
    let keys = [
        KeyCode::Space,
        KeyCode::Right,
        KeyCode::Left,
        KeyCode::PlayPause,
        KeyCode::Next,
        KeyCode::Prev,
        KeyCode::Stop,
    ];
    for a in keys {
        for b in keys {
            assert_eq!(a.virtual_key() == b.virtual_key(), a == b);
        }
    }
}
