use vstd::prelude::*;

verus! {

/// A logical key, as decoded from a terminal key press.
#[derive(Clone, Copy, Debug, PartialEq, Eq, Structural)]
pub enum Key {
    Char(char),
    Backspace,
    Enter,
    Left,
    Right,
    Up,
    Down,
    Esc,
    Other,
}

/// A key press: the key, and whether Control was the one modifier held.
#[derive(Clone, Copy, Debug, PartialEq, Eq, Structural)]
pub struct KeyPress {
    pub key: Key,
    pub control_only: bool,
}

/// A discrete action of the editor.
#[derive(Clone, Copy, Debug, PartialEq, Eq, Structural)]
pub enum Command {
    Insert(char),
    DeleteBackward,
    SplitLine,
    MoveLeft,
    MoveRight,
    MoveUp,
    MoveDown,
    Quit,
    Ignored,
}

/// The editing command that a key stands for; never `Quit`.
pub open spec fn edit_command(key: Key) -> Command {
    match key {
        Key::Char(c) => Command::Insert(c),
        Key::Backspace => Command::DeleteBackward,
        Key::Enter => Command::SplitLine,
        Key::Left => Command::MoveLeft,
        Key::Right => Command::MoveRight,
        Key::Up => Command::MoveUp,
        Key::Down => Command::MoveDown,
        Key::Esc | Key::Other => Command::Ignored,
    }
}

/// Whether a key press asks to quit: Escape or `q`, or Control with `c` or `C`.
pub open spec fn is_quit(press: KeyPress) -> bool {
    match press.key {
        Key::Esc => true,
        Key::Char(c) => c == 'q' || (press.control_only && (c == 'c' || c == 'C')),
        _ => false,
    }
}

pub open spec fn decode_spec(press: KeyPress) -> Command {
    if is_quit(press) {
        Command::Quit
    } else {
        edit_command(press.key)
    }
}

pub fn edit_command_of(key: Key) -> (r: Command)
    ensures
        r == edit_command(key),
{
    match key {
        Key::Char(c) => Command::Insert(c),
        Key::Backspace => Command::DeleteBackward,
        Key::Enter => Command::SplitLine,
        Key::Left => Command::MoveLeft,
        Key::Right => Command::MoveRight,
        Key::Up => Command::MoveUp,
        Key::Down => Command::MoveDown,
        Key::Esc | Key::Other => Command::Ignored,
    }
}

/// Decodes a key press into a command: the quit keys give `Quit`, any other
/// key its editing command.
pub fn decode(press: KeyPress) -> (r: Command)
    ensures
        r == decode_spec(press),
{
    let quit = match press.key {
        Key::Esc => true,
        Key::Char(c) => c == 'q' || (press.control_only && (c == 'c' || c == 'C')),
        _ => false,
    };
    if quit {
        Command::Quit
    } else {
        edit_command_of(press.key)
    }
}

} // verus!
