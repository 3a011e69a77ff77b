//! Logical input commands: the one-per-tick result of polling the keyboard,
//! already stripped of everything terminal-specific.
use vstd::prelude::*;

use crate::geometry::Direction;

verus! {

/// At most one command reaches the world per tick. `Quit` is handled by the
/// caller that owns the terminal; the world leaves it without effect.
#[derive(PartialEq, Eq, Structural, Clone, Copy, Debug)]
pub enum Command {
    MoveUp,
    MoveDown,
    MoveLeft,
    MoveRight,
    Restart,
    Quit,
}

impl Command {
    /// The heading a movement command asks for; nothing for the others.
    pub open spec fn requested_dir(self) -> Option<Direction> {
        match self {
            Command::MoveUp => Some(Direction::Up),
            Command::MoveDown => Some(Direction::Down),
            Command::MoveLeft => Some(Direction::Left),
            Command::MoveRight => Some(Direction::Right),
            Command::Restart => None,
            Command::Quit => None,
        }
    }

    /// What a character key means: `w`/`a`/`s`/`d` move, `q` quits, every
    /// other character is ignored. The confirm key that restarts is not a
    /// character and is mapped by the caller.
    pub fn of_key(c: char) -> (r: Option<Command>)
        ensures
            r == (match c {
                'w' => Some(Command::MoveUp),
                'a' => Some(Command::MoveLeft),
                's' => Some(Command::MoveDown),
                'd' => Some(Command::MoveRight),
                'q' => Some(Command::Quit),
                _ => None::<Command>,
            }),
    {
        match c {
            'w' => Some(Command::MoveUp),
            'a' => Some(Command::MoveLeft),
            's' => Some(Command::MoveDown),
            'd' => Some(Command::MoveRight),
            'q' => Some(Command::Quit),
            _ => None,
        }
    }
}

} // verus!
