use synthplayer::shortcuts::{key_action, Key, KeyAction};

const KEYS: [Key; 7] =
    [Key::Space, Key::ArrowLeft, Key::ArrowRight, Key::ArrowUp, Key::ArrowDown, Key::Enter, Key::Escape];

#[test]
fn shortcuts_map_keys_to_actions() {
    assert_eq!(key_action(Key::Space, false, false), Some(KeyAction::TogglePlay));
    assert_eq!(key_action(Key::ArrowLeft, false, false), Some(KeyAction::SeekBackward));
    assert_eq!(key_action(Key::ArrowRight, false, false), Some(KeyAction::SeekForward));
    assert_eq!(key_action(Key::ArrowUp, false, false), Some(KeyAction::SelectUp));
    assert_eq!(key_action(Key::ArrowDown, false, false), Some(KeyAction::SelectDown));
    assert_eq!(key_action(Key::Enter, false, false), Some(KeyAction::PlaySelected));
    assert_eq!(key_action(Key::Escape, false, false), Some(KeyAction::Stop));
}

#[test]
fn ctrl_arrows_change_track() {
    assert_eq!(key_action(Key::ArrowLeft, true, false), Some(KeyAction::PreviousTrack));
    assert_eq!(key_action(Key::ArrowRight, true, false), Some(KeyAction::NextTrack));
    assert_eq!(key_action(Key::Space, true, false), Some(KeyAction::TogglePlay));
}

#[test]
fn shortcuts_are_off_while_typing() {
    for k in KEYS {
        assert_eq!(key_action(k, false, true), None);
        assert_eq!(key_action(k, true, true), None);
    }
}
