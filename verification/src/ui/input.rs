//! Where a key or text event goes: to an application shortcut, to the
//! terminal's keyboard, or nowhere.
//!
//! Printable characters reach the terminal only through text events, so a key
//! press that also produces text is never sent twice. Return, Backspace, Tab and
//! Ctrl+letter have no text and use the key route. Clipboard and other events
//! never transmit.

use vstd::prelude::*;
use crate::ui::keyboard::KeyboardInput;
use crate::domain::config::{LidState, MuteState, SoundConfig};
use crate::ui::layout::{after_hide, after_show, PanelPresentation};
use crate::ui::repeat::{copy_text, HostKey, InputEvent};

verus! {

/// Which widget the keyboard types into.
#[derive(Clone, Copy, Debug, PartialEq, Eq, Structural)]
pub enum KeyboardTarget {
    Terminal,
    UiText,
}

/// Keys the application answers itself; none of them reaches the terminal.
#[derive(Clone, Copy, Debug, PartialEq, Eq, Structural)]
pub enum Shortcut {
    ShowReader,
    HideReader,
    ShowPunch,
    HidePunch,
    ToggleThrottle,
    ToggleMute,
    ToggleLid,
    ToggleCommunication,
    TogglePrinter,
    HistoryPageUp,
    HistoryPageDown,
    HistoryTop,
    HistoryBottom,
}

pub open spec fn shortcut_of(key: HostKey) -> Option<Shortcut> {
    match key {
        HostKey::Function(1) => Some(Shortcut::ShowReader),
        HostKey::Function(2) => Some(Shortcut::HideReader),
        HostKey::Function(3) => Some(Shortcut::ShowPunch),
        HostKey::Function(4) => Some(Shortcut::HidePunch),
        HostKey::Function(5) => Some(Shortcut::ToggleThrottle),
        HostKey::Function(6) => Some(Shortcut::ToggleMute),
        HostKey::Function(7) => Some(Shortcut::ToggleLid),
        HostKey::Function(8) => Some(Shortcut::ToggleCommunication),
        HostKey::Function(9) => Some(Shortcut::TogglePrinter),
        HostKey::PageUp => Some(Shortcut::HistoryPageUp),
        HostKey::PageDown => Some(Shortcut::HistoryPageDown),
        HostKey::Home => Some(Shortcut::HistoryTop),
        HostKey::End => Some(Shortcut::HistoryBottom),
        _ => None,
    }
}

/// The shortcut a pressed key triggers: F6 mutes and unmutes the sound, F7 opens and
/// closes the lid.
pub fn shortcut_for(key: HostKey) -> (shortcut: Option<Shortcut>)
    ensures
        shortcut == shortcut_of(key),
{
    match key {
        HostKey::Function(n) => {
            if n == 1 {
                Some(Shortcut::ShowReader)
            } else if n == 2 {
                Some(Shortcut::HideReader)
            } else if n == 3 {
                Some(Shortcut::ShowPunch)
            } else if n == 4 {
                Some(Shortcut::HidePunch)
            } else if n == 5 {
                Some(Shortcut::ToggleThrottle)
            } else if n == 6 {
                Some(Shortcut::ToggleMute)
            } else if n == 7 {
                Some(Shortcut::ToggleLid)
            } else if n == 8 {
                Some(Shortcut::ToggleCommunication)
            } else if n == 9 {
                Some(Shortcut::TogglePrinter)
            } else {
                None
            }
        },
        HostKey::PageUp => Some(Shortcut::HistoryPageUp),
        HostKey::PageDown => Some(Shortcut::HistoryPageDown),
        HostKey::Home => Some(Shortcut::HistoryTop),
        HostKey::End => Some(Shortcut::HistoryBottom),
        _ => None,
    }
}

/// The sound settings after a shortcut: F6 flips muting, F7 flips the lid; any other
/// shortcut leaves them as they are.
pub fn sound_after_shortcut(shortcut: Shortcut, sound: SoundConfig) -> (after: SoundConfig)
    ensures
        after == match shortcut {
            Shortcut::ToggleMute => SoundConfig {
                mute_state: match sound.mute_state {
                    MuteState::Muted => MuteState::Unmuted,
                    MuteState::Unmuted => MuteState::Muted,
                },
                ..sound
            },
            Shortcut::ToggleLid => SoundConfig {
                lid: match sound.lid {
                    LidState::Up => LidState::Down,
                    LidState::Down => LidState::Up,
                },
                ..sound
            },
            _ => sound,
        },
{
    match shortcut {
        Shortcut::ToggleMute => SoundConfig {
            mute_state: match sound.mute_state {
                MuteState::Muted => MuteState::Unmuted,
                MuteState::Unmuted => MuteState::Muted,
            },
            ..sound
        },
        Shortcut::ToggleLid => SoundConfig {
            lid: match sound.lid {
                LidState::Up => LidState::Down,
                LidState::Down => LidState::Up,
            },
            ..sound
        },
        _ => sound,
    }
}

/// F1/F2 show and hide the reader, F3/F4 the punch; showing returns a panel to
/// where it was last visible. Any other key changes nothing and answers `false`.
pub fn apply_tape_shortcut(
    key: HostKey,
    reader: &mut PanelPresentation,
    punch: &mut PanelPresentation,
) -> (handled: bool)
    ensures
        handled == (key == HostKey::Function(1) || key == HostKey::Function(2) || key
            == HostKey::Function(3) || key == HostKey::Function(4)),
        *final(reader) == (if key == HostKey::Function(1) {
            after_show(*old(reader))
        } else if key == HostKey::Function(2) {
            after_hide(*old(reader))
        } else {
            *old(reader)
        }),
        *final(punch) == (if key == HostKey::Function(3) {
            after_show(*old(punch))
        } else if key == HostKey::Function(4) {
            after_hide(*old(punch))
        } else {
            *old(punch)
        }),
{
    match key {
        HostKey::Function(n) => {
            if n == 1 {
                reader.show();
                true
            } else if n == 2 {
                reader.hide_panel();
                true
            } else if n == 3 {
                punch.show();
                true
            } else if n == 4 {
                punch.hide_panel();
                true
            } else {
                false
            }
        },
        _ => false,
    }
}

/// The terminal input a key press makes without text: Ctrl+letter is that
/// control character; Return, Backspace and Tab are themselves.
pub open spec fn key_input(key: HostKey, ctrl: bool) -> Option<KeyboardInput> {
    if ctrl {
        match key {
            HostKey::Letter(c) => Some(KeyboardInput::Control(c)),
            _ => None,
        }
    } else {
        match key {
            HostKey::Enter => Some(KeyboardInput::Return),
            HostKey::Backspace => Some(KeyboardInput::Backspace),
            HostKey::Tab => Some(KeyboardInput::Tab),
            _ => None,
        }
    }
}

pub open spec fn event_input(event: InputEvent) -> Option<KeyboardInput> {
    match event {
        InputEvent::Text(text) => Some(KeyboardInput::Text(text)),
        InputEvent::Key { key, pressed, modifiers, .. } => if pressed {
            key_input(key, modifiers.ctrl)
        } else {
            None
        },
        InputEvent::Other(_) => None,
    }
}

/// The terminal input an event makes: text events carry printable input, key
/// presses only the keys that make no text.
pub fn keyboard_input_for_event(event: &InputEvent) -> (input: Option<KeyboardInput>)
    ensures
        input == event_input(*event),
{
    match event {
        InputEvent::Text(text) => Some(KeyboardInput::Text(copy_text(text))),
        InputEvent::Key { key, pressed, modifiers, .. } => {
            if !*pressed {
                None
            } else if modifiers.ctrl {
                match key {
                    HostKey::Letter(c) => Some(KeyboardInput::Control(*c)),
                    _ => None,
                }
            } else {
                match key {
                    HostKey::Enter => Some(KeyboardInput::Return),
                    HostKey::Backspace => Some(KeyboardInput::Backspace),
                    HostKey::Tab => Some(KeyboardInput::Tab),
                    _ => None,
                }
            }
        },
        InputEvent::Other(_) => None,
    }
}

pub fn should_send_to_terminal(target: KeyboardTarget) -> (send: bool)
    ensures
        send == (target == KeyboardTarget::Terminal),
{
    match target {
        KeyboardTarget::Terminal => true,
        KeyboardTarget::UiText => false,
    }
}

/// The terminal input an event makes while `target` has the keyboard: none
/// while a text field is being edited.
pub fn keyboard_input_for_target(target: KeyboardTarget, event: &InputEvent) -> (input: Option<
    KeyboardInput,
>)
    ensures
        input == (if target == KeyboardTarget::Terminal {
            event_input(*event)
        } else {
            None::<KeyboardInput>
        }),
{
    if should_send_to_terminal(target) {
        keyboard_input_for_event(event)
    } else {
        None
    }
}

/// No application shortcut key makes terminal input, with or without Ctrl.
pub proof fn lemma_shortcuts_never_transmit(key: HostKey, ctrl: bool)
    requires
        shortcut_of(key) is Some,
    ensures
        key_input(key, ctrl) is None,
{
}

} // verus!
