//! Key events as the controller reads them, and the fixed key bindings.

use vstd::prelude::*;

verus! {

/// The key of a key event.
#[derive(Debug, Clone, Copy, PartialEq, Eq, Structural)]
pub enum Key {
    Char(char),
    Enter,
    Tab,
    Backspace,
    Delete,
    Esc,
    F(u8),
    Left,
    Right,
    Up,
    Down,
    Home,
    End,
    PageUp,
    PageDown,
    /// Any key that neither the controller nor the editing surface knows.
    Other,
}

impl Key {
    /// Whether the key moves the cursor or the view rather than editing text.
    pub open spec fn spec_is_motion(&self) -> bool {
        match self {
            Key::Left | Key::Right | Key::Up | Key::Down => true,
            Key::Home | Key::End | Key::PageUp | Key::PageDown => true,
            _ => false,
        }
    }

    /// Whether the key moves the cursor or the view rather than editing text.
    #[verifier::when_used_as_spec(spec_is_motion)]
    pub fn is_motion(&self) -> (motion: bool)
        ensures
            motion == self.spec_is_motion(),
    {
        match self {
            Key::Left | Key::Right | Key::Up | Key::Down => true,
            Key::Home | Key::End | Key::PageUp | Key::PageDown => true,
            _ => false,
        }
    }
}

/// What happened to the key.
#[derive(Debug, Clone, Copy, PartialEq, Eq, Structural)]
pub enum KeyKind {
    Press,
    Repeat,
    Release,
}

/// One key event: the key, the modifiers held with it, and its kind.
#[derive(Debug, Clone, Copy, PartialEq, Eq, Structural)]
pub struct KeyEvent {
    pub key: Key,
    pub ctrl: bool,
    pub alt: bool,
    pub shift: bool,
    pub kind: KeyKind,
}

/// The way the sidebar cursor moves.
#[derive(Debug, Clone, Copy, PartialEq, Eq, Structural)]
pub enum Direction {
    Up,
    Down,
}

/// The commands of the editor.
#[derive(Debug, Clone, Copy, PartialEq, Eq, Structural)]
pub enum Command {
    Quit,
    Create,
    Save,
    Open,
    SaveAs,
    ToggleFocus,
    AdvanceTheme,
    /// Moves the sidebar cursor; acts only while the sidebar has the focus.
    Navigate(Direction),
    /// Loads the file under the sidebar cursor; acts only while the sidebar
    /// has the focus.
    Select,
}

impl KeyEvent {
    /// A press of `key` with no modifier held.
    pub fn press(key: Key) -> (event: KeyEvent)
        ensures
            event == (KeyEvent { key, ctrl: false, alt: false, shift: false, kind: KeyKind::Press }),
    {
        KeyEvent { key, ctrl: false, alt: false, shift: false, kind: KeyKind::Press }
    }

    /// A press of the character `c` with Ctrl held.
    pub fn ctrl(c: char) -> (event: KeyEvent)
        ensures
            event == (KeyEvent {
                key: Key::Char(c),
                ctrl: true,
                alt: false,
                shift: false,
                kind: KeyKind::Press,
            }),
    {
        KeyEvent { key: Key::Char(c), ctrl: true, alt: false, shift: false, kind: KeyKind::Press }
    }

    /// The key bindings: Ctrl+C and Ctrl+Q quit, Ctrl+N creates, Ctrl+L
    /// saves, Ctrl+O opens, Ctrl+P saves under a new name, Ctrl+Space
    /// toggles the focus, Ctrl+T advances the theme; Up, Down and Enter
    /// navigate and select whatever modifier is held. The kind of the event
    /// plays no part.
    pub open spec fn spec_command(&self) -> Option<Command> {
        match self.key {
            Key::Up => Some(Command::Navigate(Direction::Up)),
            Key::Down => Some(Command::Navigate(Direction::Down)),
            Key::Enter => Some(Command::Select),
            Key::Char(c) => if !self.ctrl {
                None
            } else if c == 'c' || c == 'q' {
                Some(Command::Quit)
            } else if c == 'n' {
                Some(Command::Create)
            } else if c == 'l' {
                Some(Command::Save)
            } else if c == 'o' {
                Some(Command::Open)
            } else if c == 'p' {
                Some(Command::SaveAs)
            } else if c == ' ' {
                Some(Command::ToggleFocus)
            } else if c == 't' {
                Some(Command::AdvanceTheme)
            } else {
                None
            },
            _ => None,
        }
    }

    /// The command that the key is bound to, if it is bound to one.
    #[verifier::when_used_as_spec(spec_command)]
    pub fn command(&self) -> (command: Option<Command>)
        ensures
            command == self.spec_command(),
    {
        match self.key {
            Key::Up => Some(Command::Navigate(Direction::Up)),
            Key::Down => Some(Command::Navigate(Direction::Down)),
            Key::Enter => Some(Command::Select),
            Key::Char(c) => {
                if !self.ctrl {
                    None
                } else if c == 'c' || c == 'q' {
                    Some(Command::Quit)
                } else if c == 'n' {
                    Some(Command::Create)
                } else if c == 'l' {
                    Some(Command::Save)
                } else if c == 'o' {
                    Some(Command::Open)
                } else if c == 'p' {
                    Some(Command::SaveAs)
                } else if c == ' ' {
                    Some(Command::ToggleFocus)
                } else if c == 't' {
                    Some(Command::AdvanceTheme)
                } else {
                    None
                }
            },
            _ => None,
        }
    }
}

} // verus!
