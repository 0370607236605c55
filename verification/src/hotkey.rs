//! The global shortcut that switches every filter on or off.
use vstd::prelude::*;

verus! {

/// What the shortcut asks for.
#[derive(Debug, Clone, Copy, PartialEq, Eq, Structural)]
pub enum HotkeyEvent {
    ToggleGlobal,
}

/// The shortcut could not be registered.
#[derive(Debug, Clone, Copy, PartialEq, Eq, Structural)]
pub enum HotkeyError {
    RegistrationError,
}

/// The modifier keys of the shortcut, besides Shift: Command on macOS,
/// Control elsewhere.
#[derive(Debug, Clone, Copy, PartialEq, Eq, Structural)]
pub enum ShortcutModifier {
    Command,
    Control,
}

/// The modifier used with Shift and P on the given system.
pub fn shortcut_modifier(macos: bool) -> (m: ShortcutModifier)
    ensures
        m == if macos {
            ShortcutModifier::Command
        } else {
            ShortcutModifier::Control
        },
{
    if macos {
        ShortcutModifier::Command
    } else {
        ShortcutModifier::Control
    }
}

/// The event for a key press reported by the shortcut service: only a press
/// of the registered shortcut toggles the filters.
pub fn hotkey_event(event_id: u32, registered_id: u32, pressed: bool) -> (e: Option<HotkeyEvent>)
    ensures
        e == if event_id == registered_id && pressed {
            Some(HotkeyEvent::ToggleGlobal)
        } else {
            None
        },
{
    if event_id == registered_id && pressed {
        Some(HotkeyEvent::ToggleGlobal)
    } else {
        None
    }
}

} // verus!
