use vstd::prelude::*;

verus! {

/// The keys the player reacts to.
#[derive(Clone, Copy, Debug, PartialEq, Eq, Structural)]
pub enum Key {
    Space,
    ArrowLeft,
    ArrowRight,
    ArrowUp,
    ArrowDown,
    Enter,
    Escape,
}

/// What a keyboard shortcut does.
#[derive(Clone, Copy, Debug, PartialEq, Eq, Structural)]
pub enum KeyAction {
    /// Play or pause (see `AudioPlayer::toggle_action`).
    TogglePlay,
    /// Seek backward by the skip step.
    SeekBackward,
    /// Seek forward by the skip step.
    SeekForward,
    /// Go to the previous track.
    PreviousTrack,
    /// Go to the next track.
    NextTrack,
    /// Select the row above.
    SelectUp,
    /// Select the row below.
    SelectDown,
    /// Play the selected track.
    PlaySelected,
    /// Stop playback.
    Stop,
}

/// The keyboard shortcuts: Space plays or pauses, Left and Right seek
/// backward and forward, Ctrl+Left and Ctrl+Right go to the previous and
/// the next track, Up and Down move the selection, Enter plays the selected
/// track and Escape stops. No shortcut acts while a text field has focus.
pub open spec fn shortcut(key: Key, ctrl: bool, typing: bool) -> Option<KeyAction> {
    if typing {
        None
    } else {
        Some(
            match key {
                Key::Space => KeyAction::TogglePlay,
                Key::ArrowLeft => if ctrl {
                    KeyAction::PreviousTrack
                } else {
                    KeyAction::SeekBackward
                },
                Key::ArrowRight => if ctrl {
                    KeyAction::NextTrack
                } else {
                    KeyAction::SeekForward
                },
                Key::ArrowUp => KeyAction::SelectUp,
                Key::ArrowDown => KeyAction::SelectDown,
                Key::Enter => KeyAction::PlaySelected,
                Key::Escape => KeyAction::Stop,
            },
        )
    }
}

/// What pressing `key` does, with Ctrl held down (`ctrl`) or not, while a
/// text field has focus (`typing`) or not.
pub fn key_action(key: Key, ctrl: bool, typing: bool) -> (r: Option<KeyAction>)
    ensures
        r == shortcut(key, ctrl, typing),
        typing ==> r is None,
{
    if typing {
        return None;
    }
    let action = match key {
        Key::Space => KeyAction::TogglePlay,
        Key::ArrowLeft => if ctrl {
            KeyAction::PreviousTrack
        } else {
            KeyAction::SeekBackward
        },
        Key::ArrowRight => if ctrl {
            KeyAction::NextTrack
        } else {
            KeyAction::SeekForward
        },
        Key::ArrowUp => KeyAction::SelectUp,
        Key::ArrowDown => KeyAction::SelectDown,
        Key::Enter => KeyAction::PlaySelected,
        Key::Escape => KeyAction::Stop,
    };
    Some(action)
}

} // verus!
