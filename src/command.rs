use vstd::prelude::*;

verus! {

/// A key as the game tells keys apart.
#[derive(Clone, Copy, Debug, PartialEq, Eq, Structural)]
pub enum Key {
    Up,
    Down,
    Enter,
    Esc,
    Char(char),
    /// Any other key.
    Other,
}

/// A raw event from the input device.
#[derive(Clone, Copy, Debug, PartialEq, Eq, Structural)]
pub enum InputEvent {
    Key(Key),
    /// The surface now has this width and height, in cells.
    Resize(u16, u16),
    /// Any other event.
    Other,
}

/// What a player asks of the game.
#[derive(Clone, Copy, Debug, PartialEq, Eq, Structural)]
pub enum Command {
    Up,
    Down,
    Back,
    Next,
    Exit,
    Resize(u16, u16),
}

/// The command that a key stands for, if any.
pub open spec fn key_command(key: Key) -> Option<Command> {
    match key {
        Key::Up => Some(Command::Up),
        Key::Char('w') => Some(Command::Up),
        Key::Down => Some(Command::Down),
        Key::Char('s') => Some(Command::Down),
        Key::Char('b') => Some(Command::Back),
        Key::Char('n') => Some(Command::Next),
        Key::Enter => Some(Command::Next),
        Key::Esc => Some(Command::Exit),
        _ => None,
    }
}

/// The command that an event stands for, if any.
pub open spec fn decoded(event: InputEvent) -> Option<Command> {
    match event {
        InputEvent::Key(key) => key_command(key),
        InputEvent::Resize(width, height) => Some(Command::Resize(width, height)),
        InputEvent::Other => None,
    }
}

impl Command {
    /// Decodes an input event; events that mean nothing to the game give
    /// `None`.
    pub fn new(event: InputEvent) -> (r: Option<Command>)
        ensures
            r == decoded(event),
    {
        match event {
            InputEvent::Key(key) => match key {
                Key::Up | Key::Char('w') => Some(Command::Up),
                Key::Down | Key::Char('s') => Some(Command::Down),
                Key::Char('b') => Some(Command::Back),
                Key::Char('n') | Key::Enter => Some(Command::Next),
                Key::Esc => Some(Command::Exit),
                _ => None,
            },
            InputEvent::Resize(width, height) => Some(Command::Resize(width, height)),
            InputEvent::Other => None,
        }
    }
}

} // verus!
