//! Terminal events as the menu reads them, and what handling one yields.

use vstd::prelude::*;

verus! {

/// The key of a key event.
#[derive(Debug, Clone, Copy, PartialEq, Eq, Structural)]
pub enum KeyCode {
    Char(char),
    Up,
    Down,
    Home,
    End,
    Esc,
    Enter,
    /// Any other key.
    Other,
}

/// Whether a key went down, repeats or went up.
#[derive(Debug, Clone, Copy, PartialEq, Eq, Structural)]
pub enum KeyEventKind {
    Press,
    Repeat,
    Release,
}

/// The modifier bits of an event (shift, control, alt, ...); `0` is none.
pub const NO_MODIFIERS: u8 = 0;

/// A key event.
#[derive(Debug, Clone, Copy, PartialEq, Eq, Structural)]
pub struct KeyEvent {
    pub code: KeyCode,
    pub modifiers: u8,
    pub kind: KeyEventKind,
}

/// A mouse button.
#[derive(Debug, Clone, Copy, PartialEq, Eq, Structural)]
pub enum MouseButton {
    Left,
    Right,
    Middle,
}

/// What the mouse did.
#[derive(Debug, Clone, Copy, PartialEq, Eq, Structural)]
pub enum MouseEventKind {
    Moved,
    Down(MouseButton),
    /// Any other mouse action.
    Other,
}

/// A mouse event at a cell.
#[derive(Debug, Clone, Copy, PartialEq, Eq, Structural)]
pub struct MouseEvent {
    pub kind: MouseEventKind,
    pub column: u16,
    pub row: u16,
    pub modifiers: u8,
}

/// A terminal event.
#[derive(Debug, Clone, Copy, PartialEq, Eq, Structural)]
pub enum Event {
    Key(KeyEvent),
    Mouse(MouseEvent),
    /// Any other event (resize, focus, paste).
    Other,
}

/// The character of a key press, whatever the modifiers.
pub open spec fn char_press(e: Event) -> Option<char> {
    match e {
        Event::Key(k) => match k.code {
            KeyCode::Char(c) => if k.kind == KeyEventKind::Press {
                Some(c)
            } else {
                None
            },
            _ => None,
        },
        _ => None,
    }
}

/// A press of `code` without modifiers.
pub open spec fn code_press(e: Event, code: KeyCode) -> bool {
    e == Event::Key(KeyEvent { code, modifiers: NO_MODIFIERS, kind: KeyEventKind::Press })
}

/// A release of `code` without modifiers.
pub open spec fn code_release(e: Event, code: KeyCode) -> bool {
    e == Event::Key(KeyEvent { code, modifiers: NO_MODIFIERS, kind: KeyEventKind::Release })
}

/// A release of some character key without modifiers.
pub open spec fn char_release(e: Event) -> bool {
    e matches Event::Key(KeyEvent { code: KeyCode::Char(_), modifiers: 0u8, kind: KeyEventKind::Release })
}

/// A mouse move without modifiers, at `(column, row)`.
pub open spec fn mouse_moved(e: Event) -> Option<(u16, u16)> {
    match e {
        Event::Mouse(m) => if m.kind == MouseEventKind::Moved && m.modifiers == NO_MODIFIERS {
            Some((m.column, m.row))
        } else {
            None
        },
        _ => None,
    }
}

/// A left-button press without modifiers, at `(column, row)`.
pub open spec fn mouse_left_down(e: Event) -> Option<(u16, u16)> {
    match e {
        Event::Mouse(m) => if m.kind == MouseEventKind::Down(MouseButton::Left) && m.modifiers
            == NO_MODIFIERS {
            Some((m.column, m.row))
        } else {
            None
        },
        _ => None,
    }
}

/// What handling an event yields.
#[derive(Debug, Clone, Copy, PartialEq, Eq, Structural)]
pub enum MenuOutcome {
    /// The event was not for the menu.
    Continue,
    /// The event was used, nothing changed.
    Unchanged,
    /// The event was used, something changed.
    Changed,
    /// This item is now selected.
    Selected(usize),
    /// This item was chosen.
    Activated(usize),
}

impl MenuOutcome {
    /// Whether the event was used: everything but `Continue`.
    pub fn is_consumed(&self) -> (r: bool)
        ensures
            r == !(*self is Continue),
    {
        match self {
            MenuOutcome::Continue => false,
            _ => true,
        }
    }
}

} // verus!
