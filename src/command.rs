//! Single-key commands read from the terminal.

use vstd::prelude::*;

verus! {

/// A key as the sampler sees it.
#[derive(Debug, Clone, Copy, PartialEq, Eq, Structural)]
pub enum Key {
    Esc,
    Char(char),
    /// No key at all.
    Null,
    /// Any other key.
    Other,
}

/// What a key press asks for.
#[derive(Debug, Clone, Copy, PartialEq, Eq, Structural)]
pub enum Command {
    Exit,
    Pause,
    /// Reserved for changing the rate at run time; not available.
    ChangeRate,
    ToggleStream,
    ToggleDisplay,
    NoOp,
}

/// The key table.
pub open spec fn command_of(key: Key) -> Command {
    match key {
        Key::Esc => Command::Exit,
        Key::Char(c) => if c == 'q' {
            Command::Exit
        } else if c == 'p' {
            Command::Pause
        } else if c == 's' {
            Command::ChangeRate
        } else if c == 'l' {
            Command::ToggleStream
        } else if c == 'd' {
            Command::ToggleDisplay
        } else {
            Command::NoOp
        },
        _ => Command::NoOp,
    }
}

/// Looks a key up in the key table.
pub fn command_for_key(key: Key) -> (r: Command)
    ensures
        r == command_of(key),
{
    match key {
        Key::Esc => Command::Exit,
        Key::Char('q') => Command::Exit,
        Key::Char('p') => Command::Pause,
        Key::Char('s') => Command::ChangeRate,
        Key::Char('l') => Command::ToggleStream,
        Key::Char('d') => Command::ToggleDisplay,
        _ => Command::NoOp,
    }
}

} // verus!
