//! The abstract input alphabet the core consumes: keystrokes, mouse
//! actions and resizes, already decoded from the terminal by the host.

use vstd::prelude::*;

verus! {

/// A key, one cell of the closed event alphabet.
#[derive(Clone, Copy, Debug, PartialEq, Eq, Structural)]
pub enum KeyCode {
    Char(char),
    Backspace,
    Delete,
    Enter,
    Tab,
    Up,
    Down,
    Left,
    Right,
    PageUp,
    PageDown,
    Home,
    End,
    Esc,
}

/// The modifier state of a keystroke. Only the plain and control states
/// drive behaviour; everything else is `Other`.
#[derive(Clone, Copy, Debug, PartialEq, Eq, Structural)]
pub enum Modifiers {
    Plain,
    Control,
    Other,
}

/// One pressed key with its modifier state.
#[derive(Clone, Copy, Debug, PartialEq, Eq, Structural)]
pub struct KeyStroke(pub KeyCode, pub Modifiers);

/// The kind of a mouse action the core reacts to.
#[derive(Clone, Copy, Debug, PartialEq, Eq, Structural)]
pub enum MouseKind {
    ScrollUp,
    ScrollDown,
    Press,
    Other,
}

/// A mouse action at a screen position.
#[derive(Clone, Copy, Debug, PartialEq, Eq, Structural)]
pub struct MouseInput {
    pub kind: MouseKind,
    pub column: u16,
    pub row: u16,
}

/// One abstract input event.
#[derive(Clone, Copy, Debug, PartialEq, Eq, Structural)]
pub enum InputEvent {
    KeyStroke(KeyCode, Modifiers),
    Mouse(MouseInput),
    Resize(u16, u16),
}

/// What the host must do after a transition, besides redrawing.
#[derive(Clone, Copy, Debug, PartialEq, Eq, Structural)]
pub enum Effect {
    Nothing,
    SaveRequested,
    QuitRequested,
}

} // verus!
