//! Terminal input events as the dashboard reads them.
use vstd::prelude::*;

verus! {

/// A key of the keyboard.
#[derive(Debug, Clone, Copy, PartialEq, Eq, Structural)]
pub enum KeyCode {
    Char(char),
    F(u8),
    Enter,
    Esc,
    Tab,
    BackTab,
    Backspace,
    Up,
    Down,
    Left,
    Right,
    PageUp,
    PageDown,
    Home,
    End,
    Other,
}

/// Whether a key went down, repeats while held, or came up.
#[derive(Debug, Clone, Copy, PartialEq, Eq, Structural)]
pub enum KeyEventKind {
    Press,
    Repeat,
    Release,
}

/// A key event with the state of the Control modifier.
#[derive(Debug, Clone, Copy, PartialEq, Eq, Structural)]
pub struct KeyEvent {
    pub code: KeyCode,
    pub control: bool,
    pub kind: KeyEventKind,
}

/// A mouse button.
#[derive(Debug, Clone, Copy, PartialEq, Eq, Structural)]
pub enum MouseButton {
    Left,
    Right,
    Middle,
}

/// What the mouse did.
#[derive(Debug, Clone, Copy, PartialEq, Eq, Structural)]
pub enum MouseEventKind {
    Down(MouseButton),
    Up(MouseButton),
    Drag(MouseButton),
    Moved,
    ScrollUp,
    ScrollDown,
    Other,
}

/// A mouse event at a terminal cell.
#[derive(Debug, Clone, Copy, PartialEq, Eq, Structural)]
pub struct MouseEvent {
    pub kind: MouseEventKind,
    pub column: u16,
    pub row: u16,
}

/// A terminal event.
#[derive(Debug, Clone)]
pub enum Event {
    Key(KeyEvent),
    Mouse(MouseEvent),
    Paste(String),
    Other,
}

impl KeyEvent {
    /// A pressed key without modifiers.
    pub fn pressed(code: KeyCode) -> (key: KeyEvent)
        ensures
            key == (KeyEvent { code, control: false, kind: KeyEventKind::Press }),
    {
        KeyEvent { code, control: false, kind: KeyEventKind::Press }
    }
}

/// Whether `key` is Control+C that was pressed or repeated.
pub open spec fn is_force_quit_key(key: KeyEvent) -> bool {
    &&& key.kind != KeyEventKind::Release
    &&& key.control
    &&& (key.code == KeyCode::Char('c') || key.code == KeyCode::Char('C'))
}

/// Control+C quits from any view, whatever else is open; a released key does not count.
pub fn force_quit(event: &Event) -> (quit: bool)
    ensures
        quit == (*event matches Event::Key(key) && is_force_quit_key(key)),
{
    match event {
        Event::Key(key) => {
            key.kind != KeyEventKind::Release && key.control && match key.code {
                KeyCode::Char(c) => c == 'c' || c == 'C',
                _ => false,
            }
        },
        _ => false,
    }
}

} // verus!
