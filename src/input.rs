//! Keyboard and terminal input, as plain values.

use vstd::prelude::*;

verus! {

/// A key on the keyboard.
#[derive(Clone, Copy, Debug, PartialEq, Eq, Hash, Structural)]
pub enum KeyCode {
    Backspace,
    Enter,
    Left,
    Right,
    Up,
    Down,
    Home,
    End,
    PageUp,
    PageDown,
    Tab,
    BackTab,
    Delete,
    Insert,
    F(u8),
    Char(char),
    Null,
    Esc,
    CapsLock,
    ScrollLock,
    NumLock,
    PrintScreen,
    Pause,
    Menu,
    KeypadBegin,
    /// A media key, by its position in the terminal's list of media keys.
    Media(u8),
    /// A modifier key pressed on its own, by its position in the terminal's
    /// list of modifier keys.
    Modifier(u8),
}

/// Modifier bits held down with a key.
pub const SHIFT: u8 = 0b0000_0001;
pub const CONTROL: u8 = 0b0000_0010;
pub const ALT: u8 = 0b0000_0100;
pub const NO_MODIFIERS: u8 = 0;

/// Whether a key went down, repeated, or came up.
#[derive(Clone, Copy, Debug, PartialEq, Eq, Hash, Structural)]
pub enum KeyKind {
    Press,
    Repeat,
    Release,
}

/// A key together with the modifiers that select an action.
#[derive(Clone, Copy, Debug, PartialEq, Eq, Hash, Structural)]
pub struct KeyBinding {
    pub code: KeyCode,
    pub modifiers: u8,
}

/// One keyboard event as the terminal reports it.
#[derive(Clone, Copy, Debug, PartialEq, Eq, Hash, Structural)]
pub struct KeyInput {
    pub code: KeyCode,
    pub modifiers: u8,
    pub kind: KeyKind,
}

/// A raw input event handed to the UI.
#[derive(Clone, Copy, Debug, PartialEq, Eq, Hash, Structural)]
pub enum InputEvent {
    FocusGained,
    FocusLost,
    Key(KeyInput),
    Mouse,
    Paste,
    Resize(u16, u16),
}

/// Key bindings shared by the UI's components.
#[derive(Clone, Copy, Debug, PartialEq, Eq, Hash, Structural)]
pub struct KeyConfig {
    /// The key that dismisses the topmost popup.
    pub exit_popup: KeyBinding,
}

impl KeyConfig {
    /// The stock bindings: a popup is dismissed with Esc.
    pub fn new() -> (r: KeyConfig)
        ensures
            r.exit_popup == (KeyBinding { code: KeyCode::Esc, modifiers: NO_MODIFIERS }),
    {
        KeyConfig { exit_popup: KeyBinding { code: KeyCode::Esc, modifiers: NO_MODIFIERS } }
    }
}

/// A key event selects a binding when the key and the modifiers are both
/// the same.
pub open spec fn key_matches(ev: KeyInput, binding: KeyBinding) -> bool {
    ev.code == binding.code && ev.modifiers == binding.modifiers
}

/// An input event is a key press that selects the binding.
pub open spec fn is_press_of(ev: InputEvent, binding: KeyBinding) -> bool {
    ev matches InputEvent::Key(k) && k.kind == KeyKind::Press && key_matches(k, binding)
}

/// Tells whether a key event selects a binding.
pub fn key_match(ev: &KeyInput, binding: KeyBinding) -> (r: bool)
    ensures
        r == key_matches(*ev, binding),
{
    ev.code == binding.code && ev.modifiers == binding.modifiers
}

/// Tells whether an input event is a key press that selects a binding.
pub fn press_matches(ev: &InputEvent, binding: KeyBinding) -> (r: bool)
    ensures
        r == is_press_of(*ev, binding),
{
    match ev {
        InputEvent::Key(k) => k.kind == KeyKind::Press && key_match(k, binding),
        _ => false,
    }
}

} // verus!
