//! Keys and mouse events as a host sends them.
use crate::key::{KeyCode, KeyEvent, KeyModifiers};
use crate::mouse::{MouseEvent, MouseKind};
use vstd::prelude::*;

verus! {

/// The keys that a host can send.
#[derive(Debug, Clone, Copy, PartialEq, Eq, Structural)]
pub enum WireKeyCode {
    Char(char),
    Backspace,
    Enter,
    Left,
    Right,
    Up,
    Down,
    Home,
    End,
    PageUp,
    PageDown,
    Tab,
    BackTab,
    Delete,
    Insert,
    Esc,
    F(u8),
}

/// The modifiers that a host can send.
#[derive(Debug, Clone, Copy, PartialEq, Eq, Structural)]
pub struct WireMods {
    pub shift: bool,
    pub ctrl: bool,
    pub alt: bool,
    pub logo: bool,
}

#[derive(Debug, Clone, Copy, PartialEq, Eq, Structural)]
pub enum WireMouse {
    Down,
    Up,
    Drag,
    Moved,
    ScrollUp,
    ScrollDown,
    ScrollLeft,
    ScrollRight,
}

/// The buttons of the mouse; one that is not known counts as the left one.
#[derive(Debug, Clone, Copy, PartialEq, Eq, Structural)]
pub enum WireButton {
    Left,
    Right,
    Middle,
    Unknown,
}

pub open spec fn modifiers(m: WireMods) -> KeyModifiers {
    KeyModifiers {
        shift: m.shift,
        ctrl: m.ctrl,
        alt: m.alt,
        logo: m.logo,
        ..KeyModifiers::none()
    }
}

pub fn unpack_mods(m: WireMods) -> (k: KeyModifiers)
    ensures
        k == modifiers(m),
{
    KeyModifiers {
        shift: m.shift,
        ctrl: m.ctrl,
        alt: m.alt,
        logo: m.logo,
        hyper: false,
        meta: false,
    }
}

pub open spec fn code_of(k: WireKeyCode) -> KeyCode {
    match k {
        WireKeyCode::Char(c) => KeyCode::Char(c),
        WireKeyCode::Backspace => KeyCode::Backspace,
        WireKeyCode::Enter => KeyCode::Enter,
        WireKeyCode::Left => KeyCode::Left,
        WireKeyCode::Right => KeyCode::Right,
        WireKeyCode::Up => KeyCode::Up,
        WireKeyCode::Down => KeyCode::Down,
        WireKeyCode::Home => KeyCode::Home,
        WireKeyCode::End => KeyCode::End,
        WireKeyCode::PageUp => KeyCode::PageUp,
        WireKeyCode::PageDown => KeyCode::PageDown,
        WireKeyCode::Tab => KeyCode::Tab,
        WireKeyCode::BackTab => KeyCode::BackTab,
        WireKeyCode::Delete => KeyCode::Delete,
        WireKeyCode::Insert => KeyCode::Insert,
        WireKeyCode::Esc => KeyCode::Esc,
        WireKeyCode::F(n) => KeyCode::F(n),
    }
}

/// The key press that a host sent.
pub fn key_event(k: WireKeyCode, m: WireMods) -> (ev: KeyEvent)
    ensures
        ev == (KeyEvent { code: code_of(k), modifiers: modifiers(m) }),
{
    let code: KeyCode = match k {
        WireKeyCode::Char(c) => KeyCode::Char(c),
        WireKeyCode::Backspace => KeyCode::Backspace,
        WireKeyCode::Enter => KeyCode::Enter,
        WireKeyCode::Left => KeyCode::Left,
        WireKeyCode::Right => KeyCode::Right,
        WireKeyCode::Up => KeyCode::Up,
        WireKeyCode::Down => KeyCode::Down,
        WireKeyCode::Home => KeyCode::Home,
        WireKeyCode::End => KeyCode::End,
        WireKeyCode::PageUp => KeyCode::PageUp,
        WireKeyCode::PageDown => KeyCode::PageDown,
        WireKeyCode::Tab => KeyCode::Tab,
        WireKeyCode::BackTab => KeyCode::BackTab,
        WireKeyCode::Delete => KeyCode::Delete,
        WireKeyCode::Insert => KeyCode::Insert,
        WireKeyCode::Esc => KeyCode::Esc,
        WireKeyCode::F(n) => KeyCode::F(n),
    };
    KeyEvent::new(code, unpack_mods(m))
}

pub open spec fn mouse_kind(kind: WireMouse, button: WireButton) -> MouseKind {
    let left = button is Left || button is Unknown;
    match kind {
        WireMouse::Down => if left {
            MouseKind::LeftDown
        } else if button is Right {
            MouseKind::RightDown
        } else {
            MouseKind::Other
        },
        WireMouse::Drag => if left {
            MouseKind::LeftDrag
        } else {
            MouseKind::Other
        },
        WireMouse::ScrollUp => MouseKind::ScrollUp,
        WireMouse::ScrollDown => MouseKind::ScrollDown,
        WireMouse::ScrollLeft => MouseKind::ScrollLeft,
        WireMouse::ScrollRight => MouseKind::ScrollRight,
        WireMouse::Up | WireMouse::Moved => MouseKind::Other,
    }
}

/// The mouse event that a host sent.
pub fn mouse_event(kind: WireMouse, button: WireButton, column: u16, row: u16, m: WireMods) -> (ev:
    MouseEvent)
    ensures
        ev == (MouseEvent {
            kind: mouse_kind(kind, button),
            column,
            row,
            modifiers: modifiers(m),
        }),
{
    let left: bool = button == WireButton::Left || button == WireButton::Unknown;
    let kind: MouseKind = match kind {
        WireMouse::Down => if left {
            MouseKind::LeftDown
        } else if button == WireButton::Right {
            MouseKind::RightDown
        } else {
            MouseKind::Other
        },
        WireMouse::Drag => if left {
            MouseKind::LeftDrag
        } else {
            MouseKind::Other
        },
        WireMouse::ScrollUp => MouseKind::ScrollUp,
        WireMouse::ScrollDown => MouseKind::ScrollDown,
        WireMouse::ScrollLeft => MouseKind::ScrollLeft,
        WireMouse::ScrollRight => MouseKind::ScrollRight,
        WireMouse::Up | WireMouse::Moved => MouseKind::Other,
    };
    MouseEvent { kind, column, row, modifiers: unpack_mods(m) }
}

/// Ctrl+C leaves the program.
pub fn quits(key: &KeyEvent) -> (b: bool)
    ensures
        b == (key.code == KeyCode::Char('c') && key.modifiers.ctrl),
{
    key.code == KeyCode::Char('c') && key.modifiers.ctrl
}

} // verus!
