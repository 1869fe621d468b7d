//! Key presses, and what they mean in each scene.

use vstd::prelude::*;
use crate::viewport::Direction;

verus! {

/// Which key an event is about.
#[derive(Clone, Copy, Debug, PartialEq, Eq, Structural)]
pub enum KeyCode {
    Up,
    Down,
    Left,
    Right,
    Home,
    End,
    Enter,
    Esc,
    /// A key that types a character.
    Char(char),
    /// Any other key.
    Other,
}

/// What happened to the key.
#[derive(Clone, Copy, Debug, PartialEq, Eq, Structural)]
pub enum KeyEventKind {
    Press,
    Repeat,
    Release,
}

/// One event of the keyboard.
#[derive(Clone, Copy, Debug, PartialEq, Eq, Structural)]
pub struct KeyEvent {
    pub code: KeyCode,
    pub kind: KeyEventKind,
}

/// What a key press asks for.
#[derive(Clone, Copy, Debug, PartialEq, Eq, Structural)]
pub enum Signal {
    /// Highlight the entry above.
    Previous,
    /// Highlight the entry below.
    Next,
    /// Highlight the first entry.
    First,
    /// Highlight the last entry.
    Last,
    /// Take the highlighted entry and go on to the map.
    Confirm,
    /// Move the map.
    Pan(Direction),
    ZoomIn,
    ZoomOut,
    /// Look the flight up again.
    Refresh,
    /// Go back to the menu.
    Back,
    /// End the session.
    Quit,
    /// Nothing: the key has no meaning here.
    Ignored,
}

/// One of the two scenes of the session.
#[derive(Clone, Copy, Debug, PartialEq, Eq, Structural)]
pub enum Scene {
    /// The choice of a provider.
    Menu,
    /// The map.
    Explorer,
}

/// What the key `code` asks for when pressed in the menu.
pub open spec fn menu_signal(code: KeyCode) -> Signal {
    match code {
        KeyCode::Up => Signal::Previous,
        KeyCode::Down => Signal::Next,
        KeyCode::Home => Signal::First,
        KeyCode::End => Signal::Last,
        KeyCode::Enter => Signal::Confirm,
        KeyCode::Char(c) => if c == 'q' {
            Signal::Quit
        } else {
            Signal::Ignored
        },
        _ => Signal::Ignored,
    }
}

/// What the key `code` asks for when pressed on the map.
pub open spec fn explorer_signal(code: KeyCode) -> Signal {
    match code {
        KeyCode::Up => Signal::Pan(Direction::North),
        KeyCode::Down => Signal::Pan(Direction::South),
        KeyCode::Left => Signal::Pan(Direction::West),
        KeyCode::Right => Signal::Pan(Direction::East),
        KeyCode::Esc => Signal::Back,
        KeyCode::Char(c) => if c == '+' {
            Signal::ZoomIn
        } else if c == '-' {
            Signal::ZoomOut
        } else if c == 'r' {
            Signal::Refresh
        } else if c == 'q' {
            Signal::Quit
        } else {
            Signal::Ignored
        },
        _ => Signal::Ignored,
    }
}

/// What the event `key` asks for in `scene`. Only a press asks for
/// anything.
pub open spec fn signal_of(scene: Scene, key: KeyEvent) -> Signal {
    if key.kind != KeyEventKind::Press {
        Signal::Ignored
    } else {
        match scene {
            Scene::Menu => menu_signal(key.code),
            Scene::Explorer => explorer_signal(key.code),
        }
    }
}

impl Scene {
    /// Reads one event of the keyboard in this scene. A release or a repeat
    /// is ignored, and so is a key that the scene gives no meaning to.
    pub fn handle_input(&self, key: KeyEvent) -> (r: Signal)
        ensures
            r == signal_of(*self, key),
    {
        match key.kind {
            KeyEventKind::Press => match self {
                Scene::Menu => Scene::handle_input_menu(key.code),
                Scene::Explorer => Scene::handle_input_explorer(key.code),
            },
            _ => Signal::Ignored,
        }
    }

    /// Reads a key that was pressed in the menu.
    pub fn handle_input_menu(code: KeyCode) -> (r: Signal)
        ensures
            r == menu_signal(code),
    {
        match code {
            KeyCode::Up => Signal::Previous,
            KeyCode::Down => Signal::Next,
            KeyCode::Home => Signal::First,
            KeyCode::End => Signal::Last,
            KeyCode::Enter => Signal::Confirm,
            KeyCode::Char(c) => {
                if c == 'q' {
                    Signal::Quit
                } else {
                    Signal::Ignored
                }
            },
            _ => Signal::Ignored,
        }
    }

    /// Reads a key that was pressed on the map.
    pub fn handle_input_explorer(code: KeyCode) -> (r: Signal)
        ensures
            r == explorer_signal(code),
    {
        match code {
            KeyCode::Up => Signal::Pan(Direction::North),
            KeyCode::Down => Signal::Pan(Direction::South),
            KeyCode::Left => Signal::Pan(Direction::West),
            KeyCode::Right => Signal::Pan(Direction::East),
            KeyCode::Esc => Signal::Back,
            KeyCode::Char(c) => {
                if c == '+' {
                    Signal::ZoomIn
                } else if c == '-' {
                    Signal::ZoomOut
                } else if c == 'r' {
                    Signal::Refresh
                } else if c == 'q' {
                    Signal::Quit
                } else {
                    Signal::Ignored
                }
            },
            _ => Signal::Ignored,
        }
    }
}

} // verus!
